//! Desktop notifications: a builder for the message, and the `notify-send`
//! invocation it amounts to.

use vstd::prelude::*;
use crate::invocation::{Invocation, InvocationV};
use crate::text::{dec_int, i64_to_string};

verus! {

/// Spec-level mirror of [`Notification`].
pub ghost struct NotificationV {
    pub title: Seq<char>,
    pub body: Option<Seq<char>>,
    pub icon: Option<Seq<char>>,
    pub timeout: int,
    pub urgency: Seq<char>,
    pub transient: bool,
    pub hints: Seq<Seq<char>>,
}

/// A desktop notification under construction: its title, optional body and
/// icon, timeout, urgency, transience, and extra hints.
pub struct Notification {
    title: String,
    body: Option<String>,
    icon: Option<String>,
    timeout: i32,
    urgency: String,
    transient: bool,
    hints: Vec<String>,
}

impl View for Notification {
    type V = NotificationV;

    closed spec fn view(&self) -> NotificationV {
        NotificationV {
            title: self.title@,
            body: self.body.deep_view(),
            icon: self.icon.deep_view(),
            timeout: self.timeout as int,
            urgency: self.urgency@,
            transient: self.transient,
            hints: self.hints.deep_view(),
        }
    }
}

/// The hint arguments: each hint behind its own `-h` flag, in order.
pub open spec fn hint_args(hints: Seq<Seq<char>>) -> Seq<Seq<char>>
    decreases hints.len(),
{
    if hints.len() == 0 {
        Seq::empty()
    } else {
        seq!["-h"@, hints[0]] + hint_args(hints.drop_first())
    }
}

/// Hint arguments distribute over concatenation of hint lists.
pub proof fn lemma_hint_args_append(h1: Seq<Seq<char>>, h2: Seq<Seq<char>>)
    ensures
        hint_args(h1 + h2) == hint_args(h1) + hint_args(h2),
    decreases h1.len(),
{
    if h1.len() == 0 {
        assert(h1 + h2 =~= h2);
        assert(hint_args(h1) + hint_args(h2) =~= hint_args(h2));
    } else {
        assert((h1 + h2)[0] == h1[0]);
        assert((h1 + h2).drop_first() =~= h1.drop_first() + h2);
        lemma_hint_args_append(h1.drop_first(), h2);
        assert(seq!["-h"@, h1[0]] + (hint_args(h1.drop_first()) + hint_args(h2)) =~= (seq![
            "-h"@,
            h1[0],
        ] + hint_args(h1.drop_first())) + hint_args(h2));
    }
}

/// The whole `notify-send` argument list a notification amounts to:
/// `-e` when transient, `-i <icon>` when an icon is set, `-h <hint>` per
/// hint, the urgency, the timeout, the title, and the body when one is set.
pub open spec fn notification_args(n: NotificationV) -> Seq<Seq<char>> {
    (if n.transient {
        seq!["-e"@]
    } else {
        Seq::<Seq<char>>::empty()
    }) + (match n.icon {
        Some(icon) => seq!["-i"@, icon],
        None => Seq::<Seq<char>>::empty(),
    }) + hint_args(n.hints) + seq!["-u"@, n.urgency, "-t"@, dec_int(n.timeout), n.title] + (
    match n.body {
        Some(body) => seq![body],
        None => Seq::<Seq<char>>::empty(),
    })
}

impl Notification {
    /// A notification with the given title and the defaults: low urgency,
    /// the built-in timeout, no body, no icon, not transient, no hints.
    pub fn message(msg: &str) -> (r: Self)
        ensures
            r@ == (NotificationV {
                title: msg@,
                body: None,
                icon: None,
                timeout: 3000,
                urgency: "low"@,
                transient: false,
                hints: Seq::empty(),
            }),
    {
        let hints: Vec<String> = Vec::new();
        proof {
            assert(hints.deep_view() =~= Seq::<Seq<char>>::empty());
        }
        Notification {
            title: msg.to_owned(),
            body: None,
            icon: None,
            timeout: crate::config::defaults::Defaults::notification_timeout_ms(),
            urgency: "low".to_owned(),
            transient: false,
            hints,
        }
    }

    /// Sets the body text.
    pub fn body(self, body: String) -> (r: Self)
        ensures
            r@ == (NotificationV { body: Some(body@), ..self@ }),
    {
        Notification { body: Some(body), ..self }
    }

    /// Sets the icon path.
    pub fn icon(self, icon_path: &str) -> (r: Self)
        ensures
            r@ == (NotificationV { icon: Some(icon_path@), ..self@ }),
    {
        Notification { icon: Some(icon_path.to_owned()), ..self }
    }

    /// Sets how long the notification stays up, in milliseconds.
    pub fn timeout(self, timeout: i32) -> (r: Self)
        ensures
            r@ == (NotificationV { timeout: timeout as int, ..self@ }),
    {
        Notification { timeout, ..self }
    }

    /// Marks the notification transient.
    pub fn transient(self) -> (r: Self)
        ensures
            r@ == (NotificationV { transient: true, ..self@ }),
    {
        Notification { transient: true, ..self }
    }

    /// Puts the notification in a synchronous group: a later notification
    /// of the same group replaces it on screen.
    pub fn sync_group(self, group: &str) -> (r: Self)
        ensures
            r@ == (NotificationV {
                hints: self@.hints.push("string:x-canonical-private-synchronous:"@ + group@),
                ..self@
            }),
    {
        let ghost pre = self@;
        let mut this = self;
        let hint = "string:x-canonical-private-synchronous:".to_owned().concat(group);
        this.hints.push(hint);
        proof {
            assert(this.hints.deep_view() =~= pre.hints.push(
                "string:x-canonical-private-synchronous:"@ + group@,
            ));
        }
        this
    }

    /// The `notify-send` invocation that raises this notification.
    pub fn send(&self) -> (r: Invocation)
        ensures
            r@ == (InvocationV { program: "notify-send"@, args: notification_args(self@) }),
    {
        let ghost hints_v = self.hints.deep_view();
        let mut args: Vec<String> = Vec::new();
        if self.transient {
            args.push("-e".to_owned());
        }
        if let Some(icon) = &self.icon {
            args.push("-i".to_owned());
            args.push(icon.clone());
        }
        let ghost head = args.deep_view();
        proof {
            assert(head =~= (if self@.transient {
                seq!["-e"@]
            } else {
                Seq::<Seq<char>>::empty()
            }) + (match self@.icon {
                Some(icon) => seq!["-i"@, icon],
                None => Seq::<Seq<char>>::empty(),
            }));
            assert(hints_v.take(0) =~= Seq::<Seq<char>>::empty());
            assert(args.deep_view() =~= head + hint_args(hints_v.take(0)));
        }
        let mut i: usize = 0;
        while i < self.hints.len()
            invariant
                i <= self.hints@.len(),
                hints_v == self.hints.deep_view(),
                args.deep_view() == head + hint_args(hints_v.take(i as int)),
            decreases self.hints@.len() - i,
        {
            let ghost done = args.deep_view();
            args.push("-h".to_owned());
            args.push(self.hints[i].clone());
            proof {
                assert(hints_v.take(i + 1) =~= hints_v.take(i as int) + seq![hints_v[i as int]]);
                lemma_hint_args_append(hints_v.take(i as int), seq![hints_v[i as int]]);
                assert(seq![hints_v[i as int]].drop_first() =~= Seq::<Seq<char>>::empty());
                assert(hint_args(Seq::<Seq<char>>::empty()) =~= Seq::<Seq<char>>::empty());
                assert(seq!["-h"@, hints_v[i as int]] + Seq::<Seq<char>>::empty() =~= seq![
                    "-h"@,
                    hints_v[i as int],
                ]);
                assert(args.deep_view() =~= done + seq!["-h"@, hints_v[i as int]]);
            }
            i += 1;
        }
        proof {
            assert(hints_v.take(hints_v.len() as int) =~= hints_v);
        }
        let ghost with_hints = args.deep_view();
        args.push("-u".to_owned());
        args.push(self.urgency.clone());
        args.push("-t".to_owned());
        args.push(i64_to_string(self.timeout as i64));
        args.push(self.title.clone());
        proof {
            assert(args.deep_view() =~= with_hints + seq![
                "-u"@,
                self@.urgency,
                "-t"@,
                dec_int(self@.timeout),
                self@.title,
            ]);
        }
        let ghost before_body = args.deep_view();
        if let Some(body) = &self.body {
            args.push(body.clone());
            proof {
                assert(args.deep_view() =~= before_body + seq![self@.body->0]);
            }
        }
        proof {
            assert(args.deep_view() =~= notification_args(self@));
        }
        Invocation { program: "notify-send".to_owned(), args }
    }
}

} // verus!
