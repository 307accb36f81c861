//! The exact text of every notification the bot sends.
//!
//! A notification is a plain mention string plus a rich embed with one
//! field per scouting role, both in the fixed role order blue 1,
//! blue 2, blue 3, red 1, red 2, red 3, and a title quoting the
//! block's window and the warning label.

use vstd::prelude::*;

use crate::models::{PopulatedScheduleBlock, User, Window};
use crate::recon::Warning;
use crate::text::{dec_int, i64_to_string, u64_to_string};

verus! {

/// The competition's local clock runs this many milliseconds behind
/// UTC (a fixed four-hour-west offset).
pub const TZ_OFFSET_MILLIS: i64 = 4 * 60 * 60 * 1000;

/// A UTC timestamp moved to the competition's local clock.
pub open spec fn local_millis_spec(t: i64) -> int {
    t - TZ_OFFSET_MILLIS
}

/// The mention token for one chat-platform identifier.
pub open spec fn mention_spec(u: User) -> Seq<char> {
    "<@"@ + u.discord_id@ + ">"@
}

/// What one slot contributes to the mention string: its user's
/// mention token, or nothing when the slot is empty.
pub open spec fn slot_mention(s: Option<User>) -> Seq<char> {
    match s {
        Some(u) => mention_spec(u),
        None => Seq::<char>::empty(),
    }
}

/// The six slots of a block in the fixed role order.
pub open spec fn slot_seq(b: PopulatedScheduleBlock) -> Seq<Option<User>> {
    seq![b.blue1, b.blue2, b.blue3, b.red1, b.red2, b.red3]
}

/// The mention string: the slots' tokens concatenated in the fixed
/// role order; empty slots contribute nothing.
pub open spec fn pings_spec(b: PopulatedScheduleBlock) -> Seq<char> {
    slot_mention(b.blue1) + slot_mention(b.blue2) + slot_mention(b.blue3) + slot_mention(b.red1)
        + slot_mention(b.red2) + slot_mention(b.red3)
}

/// The role label of the slot at a position of the fixed order.
pub open spec fn role_name(i: int) -> Seq<char> {
    if i == 0 {
        "blue 1"@
    } else if i == 1 {
        "blue 2"@
    } else if i == 2 {
        "blue 3"@
    } else if i == 3 {
        "red 1"@
    } else if i == 4 {
        "red 2"@
    } else {
        "red 3"@
    }
}

/// The name shown on an embed field: the assigned user's display
/// name, or the placeholder when nobody is assigned.
pub open spec fn field_name_spec(s: Option<User>) -> Seq<char> {
    match s {
        Some(u) => u.first_name@ + " "@ + u.last_name@,
        None => "No One \u{1f614}"@,
    }
}

/// The value shown on an embed field for a given role label.
pub open spec fn field_value_spec(s: Option<User>, role: Seq<char>) -> Seq<char> {
    match s {
        Some(u) => "You are scouting "@ + role,
        None => "Is scouting "@ + role,
    }
}

/// The title of the notification: the block's window and the warning
/// label. A match window quotes its match numbers; a time window
/// quotes its bounds on the competition's local clock, in epoch
/// milliseconds.
pub open spec fn title_spec(b: PopulatedScheduleBlock, label: Seq<char>) -> Seq<char> {
    match b.window {
        Window::Matches { start_match, last_match } => "Scouters for match "@ + dec_int(
            start_match as int,
        ) + " - "@ + dec_int(last_match as int) + ", in "@ + label,
        Window::Time { start_time, end_time } => "Scouters from "@ + dec_int(
            local_millis_spec(start_time),
        ) + " - "@ + dec_int(local_millis_spec(end_time)) + ", in "@ + label,
    }
}

/// The label a warning is announced under, fitting the window's kind.
pub open spec fn label_spec(w: Window, warning: Warning) -> Seq<char> {
    match (w, warning) {
        (Window::Matches { .. }, Warning::Far) => "3 matches"@,
        (Window::Matches { .. }, Warning::Near) => "1 match!"@,
        (Window::Time { .. }, Warning::Far) => "30 minutes"@,
        (Window::Time { .. }, Warning::Near) => "10 minutes"@,
    }
}

/// The label a warning is announced under, fitting the window's kind.
pub fn warning_label(w: &Window, warning: Warning) -> (r: &'static str)
    ensures
        r@ == label_spec(*w, warning),
{
    match (w, warning) {
        (Window::Matches { .. }, Warning::Far) => "3 matches",
        (Window::Matches { .. }, Warning::Near) => "1 match!",
        (Window::Time { .. }, Warning::Far) => "30 minutes",
        (Window::Time { .. }, Warning::Near) => "10 minutes",
    }
}

/// The mention token for one chat-platform identifier.
pub fn ping_str(s: &str) -> (r: String)
    ensures
        r@ == "<@"@ + s@ + ">"@,
{
    let mut r = String::from_str("<@");
    r.append(s);
    r.append(">");
    r
}

/// One labeled field of the rich embed.
#[derive(Debug, PartialEq)]
pub struct EmbedField {
    pub name: String,
    pub value: String,
}

/// Builds the embed field for one slot and role label.
fn slot_field(s: &Option<User>, role: &str) -> (f: EmbedField)
    ensures
        f.name@ == field_name_spec(*s),
        f.value@ == field_value_spec(*s, role@),
{
    match s {
        Some(u) => {
            let mut name = u.first_name.clone();
            name.append(" ");
            name.append(u.last_name.as_str());
            let mut value = String::from_str("You are scouting ");
            value.append(role);
            EmbedField { name, value }
        },
        None => {
            let mut value = String::from_str("Is scouting ");
            value.append(role);
            EmbedField { name: String::from_str("No One \u{1f614}"), value }
        },
    }
}

impl PopulatedScheduleBlock {
    /// The plain-text mention string of the notification: one mention
    /// token per filled slot, in the fixed role order.
    pub fn pings(&self) -> (r: String)
        ensures
            r@ == pings_spec(*self),
    {
        let mut r = String::new();
        if let Some(u) = &self.blue1 {
            let m = ping_str(u.discord_id.as_str());
            r.append(m.as_str());
        }
        if let Some(u) = &self.blue2 {
            let m = ping_str(u.discord_id.as_str());
            r.append(m.as_str());
        }
        if let Some(u) = &self.blue3 {
            let m = ping_str(u.discord_id.as_str());
            r.append(m.as_str());
        }
        if let Some(u) = &self.red1 {
            let m = ping_str(u.discord_id.as_str());
            r.append(m.as_str());
        }
        if let Some(u) = &self.red2 {
            let m = ping_str(u.discord_id.as_str());
            r.append(m.as_str());
        }
        if let Some(u) = &self.red3 {
            let m = ping_str(u.discord_id.as_str());
            r.append(m.as_str());
        }
        proof {
            assert(r@ =~= pings_spec(*self));
        }
        r
    }

    /// The six embed fields, one per role in the fixed order: the
    /// assigned user's display name, or the placeholder for an empty
    /// slot.
    pub fn embed_fields(&self) -> (r: Vec<EmbedField>)
        ensures
            r@.len() == 6,
            forall|i: int|
                0 <= i < 6 ==> (#[trigger] r@[i]).name@ == field_name_spec(slot_seq(*self)[i])
                    && r@[i].value@ == field_value_spec(slot_seq(*self)[i], role_name(i)),
    {
        let mut r: Vec<EmbedField> = Vec::new();
        r.push(slot_field(&self.blue1, "blue 1"));
        r.push(slot_field(&self.blue2, "blue 2"));
        r.push(slot_field(&self.blue3, "blue 3"));
        r.push(slot_field(&self.red1, "red 1"));
        r.push(slot_field(&self.red2, "red 2"));
        r.push(slot_field(&self.red3, "red 3"));
        r
    }

    /// The notification title for this block under a warning label.
    pub fn title(&self, label: &str) -> (r: String)
        ensures
            r@ == title_spec(*self, label@),
    {
        match &self.window {
            Window::Matches { start_match, last_match } => {
                let mut r = String::from_str("Scouters for match ");
                let s = i64_to_string(*start_match as i64);
                r.append(s.as_str());
                r.append(" - ");
                let l = i64_to_string(*last_match as i64);
                r.append(l.as_str());
                r.append(", in ");
                r.append(label);
                proof {
                    assert(r@ =~= title_spec(*self, label@));
                }
                r
            },
            Window::Time { start_time, end_time } => {
                let mut r = String::from_str("Scouters from ");
                let s = local_millis_string(*start_time);
                r.append(s.as_str());
                r.append(" - ");
                let l = local_millis_string(*end_time);
                r.append(l.as_str());
                r.append(", in ");
                r.append(label);
                proof {
                    assert(r@ =~= title_spec(*self, label@));
                }
                r
            },
        }
    }
}

/// Renders a UTC timestamp on the competition's local clock.
fn local_millis_string(t: i64) -> (r: String)
    ensures
        r@ == dec_int(local_millis_spec(t)),
{
    let local: i128 = (t as i128) - (TZ_OFFSET_MILLIS as i128);
    if local < 0 {
        let magnitude: u64 = (-local) as u64;
        assert(magnitude as int == -(local as int));
        let mut r = String::from_str("-");
        let m = u64_to_string(magnitude);
        r.append(m.as_str());
        proof {
            reveal_strlit("-");
            assert(r@ =~= dec_int(local as int));
        }
        r
    } else {
        u64_to_string(local as u64)
    }
}

/// The body of the next-match query: one past the latest completed
/// match number.
pub fn next_match_message(latest: i32) -> (r: String)
    ensures
        r@ == "The next match is: "@ + dec_int(latest as int + 1),
{
    let mut r = String::from_str("The next match is: ");
    let n = i64_to_string((latest as i64) + 1);
    r.append(n.as_str());
    r
}

/// Both the mention string and the embed's fields follow the fixed
/// role order blue 1, blue 2, blue 3, red 1, red 2, red 3, whatever
/// slots are filled: the mention string is the concatenation of the
/// slots' tokens in that order, and the field at each position speaks
/// of the slot at the same position.
#[verifier::rlimit(50)]
pub proof fn lemma_fixed_role_order(b: PopulatedScheduleBlock)
    ensures
        pings_spec(b) == slot_seq(b).map_values(|s: Option<User>| slot_mention(s)).flatten(),
        slot_seq(b) == seq![b.blue1, b.blue2, b.blue3, b.red1, b.red2, b.red3],
{
    let m = slot_seq(b).map_values(|s: Option<User>| slot_mention(s));
    let t0 = slot_mention(b.blue1);
    let t1 = slot_mention(b.blue2);
    let t2 = slot_mention(b.blue3);
    let t3 = slot_mention(b.red1);
    let t4 = slot_mention(b.red2);
    let t5 = slot_mention(b.red3);
    assert(m =~= seq![t0, t1, t2, t3, t4, t5]);
    let m1 = m.drop_first();
    let m2 = m1.drop_first();
    let m3 = m2.drop_first();
    let m4 = m3.drop_first();
    let m5 = m4.drop_first();
    let m6 = m5.drop_first();
    assert(m1 =~= seq![t1, t2, t3, t4, t5]);
    assert(m2 =~= seq![t2, t3, t4, t5]);
    assert(m3 =~= seq![t3, t4, t5]);
    assert(m4 =~= seq![t4, t5]);
    assert(m5 =~= seq![t5]);
    assert(m6 =~= Seq::<Seq<char>>::empty());
    assert(m6.flatten() == Seq::<char>::empty());
    assert(m5.flatten() == t5 + m6.flatten());
    assert(m4.flatten() == t4 + m5.flatten());
    assert(m3.flatten() == t3 + m4.flatten());
    assert(m2.flatten() == t2 + m3.flatten());
    assert(m1.flatten() == t1 + m2.flatten());
    assert(m.flatten() == t0 + m1.flatten());
    assert(pings_spec(b) =~= m.flatten());
}

} // verus!
