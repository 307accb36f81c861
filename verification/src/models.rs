//! Schedule blocks, users, and the join that resolves slot references.
//!
//! A schedule block is a window (a wall-clock interval or a span of
//! match numbers) with six optional volunteer slots and two warning
//! flags. The store holds blocks whose slots are user references; the
//! reconciliation loop works on populated blocks, where each reference
//! has been resolved to the full user record.

use vstd::prelude::*;

verus! {

/// A volunteer that can be assigned to a scouting slot.
///
/// Identity and the chat-platform identifier are opaque strings; the
/// store owns these records and this system only reads them.
#[derive(Debug, PartialEq)]
pub struct User {
    pub id: String,
    pub username: String,
    pub first_name: String,
    pub last_name: String,
    pub discord_id: String,
}

/// The span a block covers: a wall-clock interval in epoch
/// milliseconds, or a range of match numbers.
#[derive(Debug, Clone, Copy, PartialEq, Eq, Structural)]
pub enum Window {
    Time { start_time: i64, end_time: i64 },
    Matches { start_match: i32, last_match: i32 },
}

/// A schedule block as the store holds it: slots are user references.
#[derive(Debug, PartialEq)]
pub struct ScheduleBlock {
    pub id: String,
    pub window: Window,
    pub blue1: Option<String>,
    pub blue2: Option<String>,
    pub blue3: Option<String>,
    pub red1: Option<String>,
    pub red2: Option<String>,
    pub red3: Option<String>,
    pub min_30: bool,
    pub min_10: bool,
}

/// A schedule block with every slot reference resolved to its user, or
/// left empty when the reference was empty or matched no user.
#[derive(Debug, PartialEq)]
pub struct PopulatedScheduleBlock {
    pub id: String,
    pub window: Window,
    pub blue1: Option<User>,
    pub blue2: Option<User>,
    pub blue3: Option<User>,
    pub red1: Option<User>,
    pub red2: Option<User>,
    pub red3: Option<User>,
    pub min_30: bool,
    pub min_10: bool,
}

/// The scalar a window is ordered and compared against progress by:
/// its start time, or its start match number.
pub open spec fn start_key(w: Window) -> int {
    match w {
        Window::Time { start_time, .. } => start_time as int,
        Window::Matches { start_match, .. } => start_match as int,
    }
}

impl Window {
    /// The start scalar of the window, widened so both variants fit.
    pub fn start(&self) -> (r: i64)
        ensures
            r as int == start_key(*self),
    {
        match self {
            Window::Time { start_time, .. } => *start_time,
            Window::Matches { start_match, .. } => *start_match as i64,
        }
    }
}

impl User {
    /// A field-for-field copy whose equality with the original is known
    /// to the verifier.
    pub fn duplicate(&self) -> (r: User)
        ensures
            r == *self,
    {
        let r = User {
            id: self.id.clone(),
            username: self.username.clone(),
            first_name: self.first_name.clone(),
            last_name: self.last_name.clone(),
            discord_id: self.discord_id.clone(),
        };
        r
    }
}

/// The first user in the sequence whose identity equals `id`, if any:
/// slot references take the first match when duplicates exist.
pub open spec fn find_user(users: Seq<User>, id: Seq<char>) -> Option<User>
    decreases users.len(),
{
    if users.len() == 0 {
        None
    } else if users[0].id@ == id {
        Some(users[0])
    } else {
        find_user(users.drop_first(), id)
    }
}

/// Searching a sequence whose first `i` entries are known not to match
/// is the same as searching from `i` on.
proof fn lemma_find_user_skip(users: Seq<User>, id: Seq<char>, i: int)
    requires
        0 <= i <= users.len(),
        forall|j: int| 0 <= j < i ==> users[j].id@ != id,
    ensures
        find_user(users, id) == find_user(users.skip(i), id),
    decreases i,
{
    if i == 0 {
        assert(users.skip(0) =~= users);
    } else {
        assert(users[0].id@ != id);
        assert(users.drop_first().skip(i - 1) =~= users.skip(i));
        lemma_find_user_skip(users.drop_first(), id, i - 1);
    }
}

/// Looks a user reference up in the user list, returning the first
/// record with that identity.
pub fn lookup_user(users: &Vec<User>, id: &String) -> (r: Option<User>)
    ensures
        r == find_user(users@, id@),
{
    let mut i: usize = 0;
    while i < users.len()
        invariant
            i <= users@.len(),
            forall|j: int| 0 <= j < i ==> users@[j].id@ != id@,
        decreases users@.len() - i,
    {
        if users[i].id == *id {
            proof {
                lemma_find_user_skip(users@, id@, i as int);
                assert(users@.skip(i as int)[0] == users@[i as int]);
            }
            return Some(users[i].duplicate());
        }
        i = i + 1;
    }
    proof {
        lemma_find_user_skip(users@, id@, users@.len() as int);
        assert(users@.skip(users@.len() as int) =~= Seq::<User>::empty());
    }
    None
}

/// How one slot reference resolves against the user list.
pub open spec fn resolve_slot(slot: Option<String>, users: Seq<User>) -> Option<User> {
    match slot {
        Some(id) => find_user(users, id@),
        None => None,
    }
}

/// The populated view of one block: same identity, window and flags,
/// each slot reference resolved against the user list.
pub open spec fn populate_block_spec(b: ScheduleBlock, users: Seq<User>) -> PopulatedScheduleBlock {
    PopulatedScheduleBlock {
        id: b.id,
        window: b.window,
        blue1: resolve_slot(b.blue1, users),
        blue2: resolve_slot(b.blue2, users),
        blue3: resolve_slot(b.blue3, users),
        red1: resolve_slot(b.red1, users),
        red2: resolve_slot(b.red2, users),
        red3: resolve_slot(b.red3, users),
        min_30: b.min_30,
        min_10: b.min_10,
    }
}

/// Resolves the six slot references of one block.
fn resolve_one(slot: &Option<String>, users: &Vec<User>) -> (r: Option<User>)
    ensures
        r == resolve_slot(*slot, users@),
{
    match slot {
        Some(id) => lookup_user(users, id),
        None => None,
    }
}

/// Builds the populated view of one block from the user list.
pub fn populate_block(b: &ScheduleBlock, users: &Vec<User>) -> (r: PopulatedScheduleBlock)
    ensures
        r == populate_block_spec(*b, users@),
{
    let r = PopulatedScheduleBlock {
        id: b.id.clone(),
        window: b.window,
        blue1: resolve_one(&b.blue1, users),
        blue2: resolve_one(&b.blue2, users),
        blue3: resolve_one(&b.blue3, users),
        red1: resolve_one(&b.red1, users),
        red2: resolve_one(&b.red2, users),
        red3: resolve_one(&b.red3, users),
        min_30: b.min_30,
        min_10: b.min_10,
    };
    r
}

/// The blocks stand in ascending order of their start scalar.
pub open spec fn sorted_by_start(s: Seq<PopulatedScheduleBlock>) -> bool {
    forall|i: int, j: int|
        0 <= i < j < s.len() ==> start_key(#[trigger] s[i].window) <= start_key(#[trigger] s[j].window)
}

impl PopulatedScheduleBlock {
    /// Whether any of the six slots has a volunteer assigned.
    pub open spec fn spec_has_scouter(self) -> bool {
        self.blue1 is Some || self.blue2 is Some || self.blue3 is Some || self.red1 is Some
            || self.red2 is Some || self.red3 is Some
    }

    /// Whether any of the six slots has a volunteer assigned; a block
    /// with all six empty is never announced.
    pub fn has_scouter(&self) -> (r: bool)
        ensures
            r == self.spec_has_scouter(),
    {
        self.blue1.is_some() || self.blue2.is_some() || self.blue3.is_some()
            || self.red1.is_some() || self.red2.is_some() || self.red3.is_some()
    }

    /// The block with its far-warning flag set and all else unchanged.
    pub open spec fn with_min_30(self) -> PopulatedScheduleBlock {
        PopulatedScheduleBlock { min_30: true, ..self }
    }

    /// The block with its near-warning flag set and all else unchanged.
    pub open spec fn with_min_10(self) -> PopulatedScheduleBlock {
        PopulatedScheduleBlock { min_10: true, ..self }
    }

    /// Records that the far warning went out. The flag only ever moves
    /// to `true`; nothing resets it. The caller mirrors the same change
    /// onto the persisted record.
    pub fn update_min_30(&mut self)
        ensures
            *final(self) == old(self).with_min_30(),
            final(self).min_30,
            final(self).min_10 == old(self).min_10,
    {
        self.min_30 = true;
    }

    /// Records that the near warning went out. The flag only ever moves
    /// to `true`; nothing resets it. The caller mirrors the same change
    /// onto the persisted record.
    pub fn update_min_10(&mut self)
        ensures
            *final(self) == old(self).with_min_10(),
            final(self).min_10,
            final(self).min_30 == old(self).min_30,
    {
        self.min_10 = true;
    }
}

/// Taking one element out of a sequence and putting the same element
/// back, wherever, leaves its multiset of elements unchanged.
proof fn lemma_remove_insert_multiset(
    s: Seq<PopulatedScheduleBlock>,
    i: int,
    pos: int,
)
    requires
        0 <= i < s.len(),
        0 <= pos <= s.len() - 1,
    ensures
        s.remove(i).insert(pos, s[i]).to_multiset() =~= s.to_multiset(),
{
    broadcast use vstd::seq_lib::group_to_multiset_ensures;

    let x = s[i];
    let removed = s.remove(i);
    assert(removed.to_multiset() =~= s.to_multiset().remove(x));
    assert(removed.insert(pos, x).to_multiset() =~= removed.to_multiset().insert(x));
    assert(s.to_multiset().contains(x));
    assert forall|y: PopulatedScheduleBlock|
        s.to_multiset().remove(x).insert(x).count(y) == s.to_multiset().count(y) by {
    }
    assert(s.to_multiset().remove(x).insert(x) =~= s.to_multiset());
}

/// Sorts the blocks ascending by their start scalar, keeping exactly
/// the same blocks.
pub fn sort_blocks(v: &mut Vec<PopulatedScheduleBlock>)
    ensures
        final(v)@.to_multiset() == old(v)@.to_multiset(),
        sorted_by_start(final(v)@),
        final(v)@.len() == old(v)@.len(),
{
    let ghost original = v@;
    let mut i: usize = 1;
    while i < v.len()
        invariant
            1 <= i,
            i <= v@.len() || v@.len() == 0,
            v@.to_multiset() == original.to_multiset(),
            v@.len() == original.len(),
            forall|a: int, b: int|
                0 <= a < b < i && b < v@.len() ==> start_key(#[trigger] v@[a].window)
                    <= start_key(#[trigger] v@[b].window),
        decreases v@.len() - i,
    {
        let ghost before = v@;
        let x = v.remove(i);
        let ghost removed = v@;
        let mut pos: usize = i;
        while pos > 0 && v[pos - 1].window.start() > x.window.start()
            invariant
                pos <= i,
                i < before.len(),
                v@ == removed,
                removed == before.remove(i as int),
                x == before[i as int],
                forall|k: int|
                    pos <= k < i ==> start_key(#[trigger] v@[k].window) > start_key(x.window),
            decreases pos,
        {
            pos = pos - 1;
        }
        v.insert(pos, x);
        proof {
            lemma_remove_insert_multiset(before, i as int, pos as int);
            assert(v@ =~= before.remove(i as int).insert(pos as int, before[i as int]));
            assert(v@.to_multiset() =~= original.to_multiset());
            // The sorted prefix grows by one: everything below `pos`
            // was at most `x`, everything from `pos` up to `i` was
            // greater than `x`, and the prefix was sorted.
            assert forall|a: int, b: int|
                0 <= a < b < i + 1 && b < v@.len() implies start_key(#[trigger] v@[a].window)
                    <= start_key(#[trigger] v@[b].window) by {
                if pos > 0 {
                    assert(start_key(removed[pos - 1].window) <= start_key(x.window));
                }
                if a < pos {
                    assert(v@[a] == removed[a]);
                    assert(v@[a] == before[a]);
                }
                if b < pos {
                    assert(v@[b] == before[b]);
                }
                if pos < a {
                    assert(v@[a] == removed[a - 1]);
                }
                if pos < b {
                    assert(v@[b] == removed[b - 1]);
                }
            }
        }
        i = i + 1;
    }
}

/// The populated read-model of the whole store: every block joined
/// against the user list, sorted ascending by start. This is the pure
/// core of the populate query; the store shell fetches the two raw
/// collections and hands them here.
pub fn populate(blocks: &Vec<ScheduleBlock>, users: &Vec<User>) -> (r: Vec<
    PopulatedScheduleBlock,
>)
    ensures
        r@.to_multiset() == blocks@.map_values(
            |b: ScheduleBlock| populate_block_spec(b, users@),
        ).to_multiset(),
        sorted_by_start(r@),
        r@.len() == blocks@.len(),
{
    let ghost target = blocks@.map_values(|b: ScheduleBlock| populate_block_spec(b, users@));
    let mut r: Vec<PopulatedScheduleBlock> = Vec::new();
    let mut i: usize = 0;
    while i < blocks.len()
        invariant
            i <= blocks@.len(),
            target == blocks@.map_values(|b: ScheduleBlock| populate_block_spec(b, users@)),
            r@ =~= target.take(i as int),
        decreases blocks@.len() - i,
    {
        let p = populate_block(&blocks[i], users);
        r.push(p);
        proof {
            assert(r@ =~= target.take(i + 1));
        }
        i = i + 1;
    }
    proof {
        assert(r@ =~= target);
    }
    sort_blocks(&mut r);
    r
}

/// Once a warning flag is true it stays true: the only writes the
/// system ever makes to a block's flags are the two markers, and
/// neither lowers a flag.
pub proof fn lemma_flags_monotone(b: PopulatedScheduleBlock, after: PopulatedScheduleBlock)
    requires
        after == b.with_min_30() || after == b.with_min_10(),
    ensures
        b.min_30 ==> after.min_30,
        b.min_10 ==> after.min_10,
{
}

} // verus!
