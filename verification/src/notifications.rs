//! Who is told about a new comment, and what the mail says.

use vstd::prelude::*;
use crate::newtypes::{CommentId, LocalUserId, PersonId};
use crate::text::{str_eq, texts_of};
use crate::utils::{Comment, LocalUserView, Person, Post};

verus! {

/// A mention of a user in a text: name and instance.
#[derive(Debug, Clone)]
pub struct MentionData {
    pub name: String,
    pub domain: String,
}

impl MentionData {
    /// Whether the mentioned user lives on the instance `hostname`.
    pub fn is_local(&self, hostname: &str) -> (r: bool)
        ensures
            r == (self.domain@ == hostname@),
    {
        str_eq(self.domain.as_str(), hostname)
    }
}

/// The record that a person was mentioned in a comment.
#[derive(Debug, Clone, Copy, PartialEq, Eq, Structural)]
pub struct PersonMentionForm {
    pub recipient_id: PersonId,
    pub comment_id: CommentId,
    pub read: Option<bool>,
}

/// A mail to send.
#[derive(Debug, Clone)]
pub struct Email {
    pub to: String,
    pub to_username: String,
    pub subject: String,
    pub html: String,
}

/// The mathematical value of a mail.
pub struct EmailView {
    pub to: Seq<char>,
    pub to_username: Seq<char>,
    pub subject: Seq<char>,
    pub html: Seq<char>,
}

impl View for Email {
    type V = EmailView;

    open spec fn view(&self) -> EmailView {
        EmailView {
            to: self.to@,
            to_username: self.to_username@,
            subject: self.subject@,
            html: self.html@,
        }
    }
}

/// What the notification of one comment amounts to.
#[derive(Debug, Clone)]
pub struct LocalNotifs {
    /// The local users to notify, in order.
    pub recipient_ids: Vec<LocalUserId>,
    /// The mentions to store.
    pub mentions: Vec<PersonMentionForm>,
    /// The mails to send.
    pub emails: Vec<Email>,
}

/// A mention counts when it names a user of this instance other than the
/// author.
pub open spec fn counts(mention: MentionData, hostname: Seq<char>, author: Seq<char>) -> bool {
    mention.domain@ == hostname && mention.name@ != author
}

/// The names of the mentions that count, in order.
pub open spec fn names_to_notify(
    mentions: Seq<MentionData>,
    hostname: Seq<char>,
    author: Seq<char>,
) -> Seq<Seq<char>>
    decreases mentions.len(),
{
    if mentions.len() == 0 {
        Seq::empty()
    } else {
        let before = names_to_notify(mentions.drop_last(), hostname, author);
        if counts(mentions.last(), hostname, author) {
            before.push(mentions.last().name@)
        } else {
            before
        }
    }
}

/// Picks the mentions of local users other than the author; these are
/// the names to look up.
pub fn local_mentions(mentions: &Vec<MentionData>, hostname: &str, author: &str) -> (r: Vec<String>)
    ensures
        texts_of(r@) == names_to_notify(mentions@, hostname@, author@),
{
    let mut out: Vec<String> = Vec::new();
    let mut i: usize = 0;
    assert(mentions@.take(0) =~= Seq::<MentionData>::empty());
    assert(texts_of(out@) =~= names_to_notify(
        mentions@.take(0),
        hostname@,
        author@,
    ));
    while i < mentions.len()
        invariant
            i <= mentions.len(),
            texts_of(out@) == names_to_notify(
                mentions@.take(i as int),
                hostname@,
                author@,
            ),
        decreases mentions.len() - i,
    {
        let ghost shown = texts_of(out@);
        assert(mentions@.take(i as int + 1).drop_last() =~= mentions@.take(i as int));
        assert(mentions@.take(i as int + 1).last() == mentions@[i as int]);
        if mentions[i].is_local(hostname) && !str_eq(mentions[i].name.as_str(), author) {
            out.push(mentions[i].name.clone());
            assert(texts_of(out@) =~= shown.push(
                mentions@[i as int].name@,
            ));
        }
        i += 1;
    }
    assert(mentions@.take(mentions.len() as int) =~= mentions@);
    out
}

/// The mail that tells a user of a comment, if the user gets one: a
/// banned user gets none, nor one who has switched mails off or has no
/// address.
pub open spec fn mail_for(
    user: LocalUserView,
    subject_text: Seq<char>,
    body_text: Seq<char>,
    comment_content: Seq<char>,
    hostname: Seq<char>,
    protocol_and_hostname: Seq<char>,
) -> Option<EmailView> {
    if user.person.banned || !user.local_user.send_notifications_to_email {
        None
    } else {
        match user.local_user.email {
            None => None,
            Some(address) => Some(
                EmailView {
                    to: address@,
                    to_username: user.person.name@,
                    subject: subject_text + " - "@ + hostname + " "@ + user.person.name@,
                    html: "<h1>"@ + body_text + "</h1><br><div>"@ + user.person.name@ + " - "@
                        + comment_content + "</div><br><a href="@ + protocol_and_hostname
                        + "/inbox>inbox</a>"@,
                },
            ),
        }
    }
}

/// The mathematical value of a mail that may be there.
pub open spec fn mail_view(mail: Option<Email>) -> Option<EmailView> {
    match mail {
        Some(m) => Some(m@),
        None => None,
    }
}

/// Writes the mail that tells a user of a comment, if the user gets one.
pub fn send_email_to_user(
    local_user_view: &LocalUserView,
    subject_text: &str,
    body_text: &str,
    comment_content: &str,
    hostname: &str,
    protocol_and_hostname: &str,
) -> (r: Option<Email>)
    ensures
        mail_view(r) == mail_for(
            *local_user_view,
            subject_text@,
            body_text@,
            comment_content@,
            hostname@,
            protocol_and_hostname@,
        ),
{
    if local_user_view.person.banned || !local_user_view.local_user.send_notifications_to_email {
        return None;
    }
    match &local_user_view.local_user.email {
        None => None,
        Some(address) => {
            let name = local_user_view.person.name.as_str();
            let subject = subject_text.to_owned().concat(" - ").concat(hostname).concat(
                " ",
            ).concat(name);
            let html = "<h1>".to_owned().concat(body_text).concat("</h1><br><div>").concat(
                name,
            ).concat(" - ").concat(comment_content).concat("</div><br><a href=").concat(
                protocol_and_hostname,
            ).concat("/inbox>inbox</a>");
            Some(
                Email {
                    to: address.clone(),
                    to_username: local_user_view.person.name.clone(),
                    subject,
                    html,
                },
            )
        },
    }
}

/// Who is told of a reply: the author of the parent comment where the
/// comment answers one that could be read, the author of the post where
/// it answers the post; nobody where that is the commenter.
pub open spec fn replied_to(
    comment: Comment,
    commenter: PersonId,
    post: Post,
    parent: Option<Comment>,
) -> Option<PersonId> {
    match comment.parent_id {
        Some(_) => match parent {
            Some(p) => if p.creator_id != commenter {
                Some(p.creator_id)
            } else {
                None
            },
            None => None,
        },
        None => if post.creator_id != commenter {
            Some(post.creator_id)
        } else {
            None
        },
    }
}

/// Finds the person to tell of a reply, if there is one.
pub fn reply_recipient(comment: &Comment, person: &Person, post: &Post, parent: Option<&Comment>) -> (r:
    Option<PersonId>)
    ensures
        r == replied_to(
            *comment,
            person.id,
            *post,
            match parent {
                Some(p) => Some(*p),
                None => None,
            },
        ),
{
    match comment.parent_id {
        Some(_) => match parent {
            Some(p) => if p.creator_id != person.id {
                Some(p.creator_id)
            } else {
                None
            },
            None => None,
        },
        None => if post.creator_id != person.id {
            Some(post.creator_id)
        } else {
            None
        },
    }
}

/// The mails for the mentioned users, in order; a user without a mail is
/// passed over.
pub open spec fn mention_mails(
    mentioned: Seq<LocalUserView>,
    comment_content: Seq<char>,
    hostname: Seq<char>,
    protocol_and_hostname: Seq<char>,
) -> Seq<EmailView>
    decreases mentioned.len(),
{
    if mentioned.len() == 0 {
        Seq::empty()
    } else {
        let before = mention_mails(
            mentioned.drop_last(),
            comment_content,
            hostname,
            protocol_and_hostname,
        );
        match mail_for(
            mentioned.last(),
            "Mentioned by"@,
            "Person Mention"@,
            comment_content,
            hostname,
            protocol_and_hostname,
        ) {
            Some(mail) => before.push(mail),
            None => before,
        }
    }
}

/// The body text of the mail about a reply.
pub open spec fn reply_body(comment: Comment) -> Seq<char> {
    if comment.parent_id is Some {
        "Comment Reply"@
    } else {
        "Post Reply"@
    }
}

/// All mails for one comment: those for the mentions, then the one for
/// the reply.
pub open spec fn all_mails(
    mentioned: Seq<LocalUserView>,
    comment: Comment,
    reply_user: Option<LocalUserView>,
    do_send_email: bool,
    hostname: Seq<char>,
    protocol_and_hostname: Seq<char>,
) -> Seq<EmailView> {
    if !do_send_email {
        Seq::empty()
    } else {
        let first = mention_mails(mentioned, comment.content@, hostname, protocol_and_hostname);
        match reply_user {
            Some(user) => match mail_for(
                user,
                "Reply from"@,
                reply_body(comment),
                comment.content@,
                hostname,
                protocol_and_hostname,
            ) {
                Some(mail) => first.push(mail),
                None => first,
            },
            None => first,
        }
    }
}

/// The local users to notify: the mentioned ones, then the one replied to.
pub open spec fn all_recipients(mentioned: Seq<LocalUserView>, reply_user: Option<LocalUserView>) -> Seq<
    LocalUserId,
> {
    let first = Seq::new(mentioned.len(), |i: int| mentioned[i].local_user.id);
    match reply_user {
        Some(user) => first.push(user.local_user.id),
        None => first,
    }
}

/// The mentions to store, one for each mentioned user.
pub open spec fn all_mentions(mentioned: Seq<LocalUserView>, comment_id: CommentId) -> Seq<
    PersonMentionForm,
> {
    Seq::new(
        mentioned.len(),
        |i: int| PersonMentionForm { recipient_id: mentioned[i].person.id, comment_id, read: None },
    )
}

/// The values of a list of mails, in order.
pub open spec fn mails_view(mails: Seq<Email>) -> Seq<EmailView> {
    Seq::new(mails.len(), |i: int| mails[i]@)
}

/// Works out the notifications for a new comment. `mentioned` holds the
/// local users that were found for the mentions that count, in order;
/// `reply_user` is the local user of the person replied to, where there
/// is such a person and the user was found. Each of them is notified,
/// each mentioned one gets a mention stored, and with `do_send_email`
/// each gets a mail who wants one.
pub fn do_send_local_notifs(
    mentioned: &Vec<LocalUserView>,
    comment: &Comment,
    reply_user: Option<&LocalUserView>,
    do_send_email: bool,
    hostname: &str,
    protocol_and_hostname: &str,
) -> (r: LocalNotifs)
    ensures
        r.recipient_ids@ == all_recipients(
            mentioned@,
            match reply_user {
                Some(u) => Some(*u),
                None => None,
            },
        ),
        r.mentions@ == all_mentions(mentioned@, comment.id),
        mails_view(r.emails@) == all_mails(
            mentioned@,
            *comment,
            match reply_user {
                Some(u) => Some(*u),
                None => None,
            },
            do_send_email,
            hostname@,
            protocol_and_hostname@,
        ),
{
    let mut recipient_ids: Vec<LocalUserId> = Vec::new();
    let mut mentions: Vec<PersonMentionForm> = Vec::new();
    let mut emails: Vec<Email> = Vec::new();
    let mut i: usize = 0;
    assert(mentioned@.take(0) =~= Seq::<LocalUserView>::empty());
    assert(mails_view(emails@) =~= Seq::<EmailView>::empty());
    while i < mentioned.len()
        invariant
            i <= mentioned.len(),
            recipient_ids@.len() == i,
            mentions@.len() == i,
            forall|k: int| 0 <= k < i ==> recipient_ids@[k] == mentioned@[k].local_user.id,
            forall|k: int|
                0 <= k < i ==> mentions@[k] == (PersonMentionForm {
                    recipient_id: mentioned@[k].person.id,
                    comment_id: comment.id,
                    read: None,
                }),
            do_send_email ==> mails_view(emails@) == mention_mails(
                mentioned@.take(i as int),
                comment.content@,
                hostname@,
                protocol_and_hostname@,
            ),
            !do_send_email ==> emails@.len() == 0,
        decreases mentioned.len() - i,
    {
        let user = &mentioned[i];
        recipient_ids.push(user.local_user.id);
        mentions.push(
            PersonMentionForm { recipient_id: user.person.id, comment_id: comment.id, read: None },
        );
        assert(mentioned@.take(i as int + 1).drop_last() =~= mentioned@.take(i as int));
        assert(mentioned@.take(i as int + 1).last() == mentioned@[i as int]);
        if do_send_email {
            let ghost shown = mails_view(emails@);
            match send_email_to_user(
                user,
                "Mentioned by",
                "Person Mention",
                comment.content.as_str(),
                hostname,
                protocol_and_hostname,
            ) {
                Some(mail) => {
                    emails.push(mail);
                    assert(mails_view(emails@) =~= shown.push(mail@));
                },
                None => {},
            }
        }
        i += 1;
    }
    assert(mentioned@.take(mentioned.len() as int) =~= mentioned@);
    let ghost mails_before = mails_view(emails@);
    let ghost ids_before = recipient_ids@;
    if let Some(user) = reply_user {
        recipient_ids.push(user.local_user.id);
        if do_send_email {
            let body = if comment.parent_id.is_some() {
                "Comment Reply"
            } else {
                "Post Reply"
            };
            match send_email_to_user(
                user,
                "Reply from",
                body,
                comment.content.as_str(),
                hostname,
                protocol_and_hostname,
            ) {
                Some(mail) => {
                    emails.push(mail);
                    assert(mails_view(emails@) =~= mails_before.push(mail@));
                },
                None => {},
            }
        }
    }
    assert(recipient_ids@ =~= all_recipients(
        mentioned@,
        match reply_user {
            Some(u) => Some(*u),
            None => None,
        },
    ));
    assert(mentions@ =~= all_mentions(mentioned@, comment.id));
    if !do_send_email {
        assert(mails_view(emails@) =~= Seq::<EmailView>::empty());
    }
    LocalNotifs { recipient_ids, mentions, emails }
}

} // verus!
