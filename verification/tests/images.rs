use lemmy_federation::images::{ImageDetails, ImageDetailsInsertForm, LocalImage, LocalImageForm, RemoteImage};
use lemmy_federation::newtypes::{DbUrl, LocalUserId};

#[test]
fn image_records_hold_their_fields() {
    let form = LocalImageForm { local_user_id: Some(LocalUserId(3)), pictrs_alias: "abc.webp".to_string() };
    let stored = LocalImage { local_user_id: form.local_user_id, pictrs_alias: form.pictrs_alias.clone(), published: 17 };
    assert_eq!(stored.local_user_id, Some(LocalUserId(3)));
    assert_eq!(stored.pictrs_alias, "abc.webp");
    let remote = RemoteImage { link: DbUrl("https://far.example/i.png".to_string()), published: 18 };
    assert_eq!(remote.link.0, "https://far.example/i.png");
    let insert = ImageDetailsInsertForm {
        link: DbUrl("https://far.example/i.png".to_string()),
        width: 640,
        height: 480,
        content_type: "image/png".to_string(),
        blurhash: None,
    };
    let details = ImageDetails {
        link: insert.link.clone(),
        width: insert.width,
        height: insert.height,
        content_type: insert.content_type.clone(),
        blurhash: Some("LEHV6nWB2yk8".to_string()),
    };
    assert_eq!((details.width, details.height), (640, 480));
    assert_eq!(details.content_type, "image/png");
    assert_eq!(details.link.0, remote.link.0);
}
