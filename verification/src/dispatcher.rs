//! The notification dispatcher's pure part: turn one classified change event
//! into the ordered plan of outbound sends.
//!
//! The plan is: one silent send to the broadcast channel, where one is
//! configured and the package is not banned from it; then one normal send per
//! subscriber, in store order, each followed by the configured pacing pause.
//! A failed subscription-store query (`None` subscribers) degrades the event
//! to broadcast-only delivery. Executing the plan — including retries, whose
//! policy lives in `retry` — is the caller's business.

use vstd::prelude::*;

use crate::cfg::Config;
use crate::classifier::{ActionKind, ChangeEvent};
use crate::krate::{html_links_text, Crate};

verus! {

/// The verb a change event is announced with.
pub open spec fn verb_of(a: ActionKind) -> Seq<char> {
    match a {
        ActionKind::NewVersion => "updated"@,
        ActionKind::Retracted => "retracted"@,
        ActionKind::Unretracted => "unretracted"@,
    }
}

pub fn action_verb(a: ActionKind) -> (r: &'static str)
    ensures
        r@ == verb_of(a),
{
    match a {
        ActionKind::NewVersion => "updated",
        ActionKind::Retracted => "retracted",
        ActionKind::Unretracted => "unretracted",
    }
}

/// The message recipients see: the verb, the package's name and version, and
/// the reference links.
pub open spec fn rendered_message(name: Seq<char>, vers: Seq<char>, a: ActionKind) -> Seq<char> {
    "Crate was "@ + verb_of(a) + ": <code>"@ + name + "#"@ + vers + "</code> "@ + html_links_text(
        name,
        vers,
    )
}

pub fn render_message(krate: &Crate, action: ActionKind) -> (r: String)
    ensures
        r@ == rendered_message(krate.id.name@, krate.id.vers@, action),
{
    let mut s = String::from_str("Crate was ");
    s.append(action_verb(action));
    s.append(": <code>");
    s.append(krate.id.name.as_str());
    s.append("#");
    s.append(krate.id.vers.as_str());
    s.append("</code> ");
    let links = krate.html_links();
    s.append(links.as_str());
    s
}

/// One outbound send: the recipient, the text, whether delivery is silent
/// (no recipient alert), and the pacing pause that follows it.
#[derive(Debug)]
pub struct SendAction {
    pub chat_id: i64,
    pub text: String,
    pub silent: bool,
    pub pause_after_millis: u64,
}

/// The event reaches the broadcast channel: one is configured and the package
/// is not banned from it.
pub open spec fn broadcast_planned(cfg: Config, name: Seq<char>) -> bool {
    cfg.channel is Some && !cfg.ban.is_banned(name)
}

/// Plan the sends for one change event. `subscribers` is the subscriber set
/// read from the store, in store order, or `None` where that query failed —
/// then only the broadcast send (if any) is planned. A failure to deliver one
/// send never removes later sends from the plan: every planned send stands on
/// its own.
pub fn notify_plan(event: &ChangeEvent, cfg: &Config, subscribers: &Option<Vec<i64>>) -> (plan:
    Vec<SendAction>)
    ensures
        ({
            let name = event.next.id.name@;
            let msg = rendered_message(name, event.next.id.vers@, event.action);
            let b: int = if broadcast_planned(*cfg, name) {
                1
            } else {
                0
            };
            let subs: Seq<i64> = match subscribers {
                Some(s) => s@,
                None => Seq::empty(),
            };
            &&& plan@.len() == b + subs.len()
            &&& (broadcast_planned(*cfg, name) ==> (cfg.channel matches Some(ch) && {
                &&& plan@[0].chat_id == ch
                &&& plan@[0].silent
                &&& plan@[0].text@ == msg
                &&& plan@[0].pause_after_millis == 0
            }))
            &&& forall|i: int|
                0 <= i < subs.len() ==> {
                    &&& (#[trigger] plan@[b + i]).chat_id == subs[i]
                    &&& !plan@[b + i].silent
                    &&& plan@[b + i].text@ == msg
                    &&& plan@[b + i].pause_after_millis == cfg.broadcast_delay_millis.millis
                }
        }),
{
    let msg = render_message(&event.next, event.action);
    let mut plan: Vec<SendAction> = Vec::new();
    if let Some(ch) = cfg.channel {
        if !cfg.ban.contains(event.next.id.name.as_str()) {
            plan.push(
                SendAction { chat_id: ch, text: msg.clone(), silent: true, pause_after_millis: 0 },
            );
        }
    }
    let ghost base = plan@;
    let ghost b = plan@.len() as int;
    match subscribers {
        Some(subs) => {
            let n = subs.len();
            let mut i: usize = 0;
            while i < n
                invariant
                    i <= n,
                    n == subs@.len(),
                    b == base.len(),
                    plan@.len() == b + i,
                    forall|j: int| 0 <= j < b ==> (#[trigger] plan@[j]) == base[j],
                    forall|j: int|
                        0 <= j < i ==> {
                            &&& (#[trigger] plan@[b + j]).chat_id == subs@[j]
                            &&& !plan@[b + j].silent
                            &&& plan@[b + j].text@ == msg@
                            &&& plan@[b + j].pause_after_millis
                                == cfg.broadcast_delay_millis.millis
                        },
                decreases n - i,
            {
                plan.push(
                    SendAction {
                        chat_id: subs[i],
                        text: msg.clone(),
                        silent: false,
                        pause_after_millis: cfg.broadcast_delay_millis.millis,
                    },
                );
                i += 1;
            }
        },
        None => {},
    }
    plan
}

} // verus!
