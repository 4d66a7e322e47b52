//! The processed-set: the ids that must not be fetched again, and the text
//! form in which a checkpoint keeps them.

use vstd::prelude::*;
use crate::digits::{decimal, decimal_is_digits, decimal_spells};

verus! {

/// The error type of the JSON library; nothing is known of what it holds.
#[verifier::external_type_specification]
#[verifier::external_body]
pub struct ExJsonError(serde_json::Error);

/// The ids that a checkpoint text holds, or `None` where the text is not a
/// JSON array of numbers that each fit an id.
pub uninterp spec fn parsed_ids(text: Seq<char>) -> Option<Seq<u32>>;

/// The ids in decimal notation with a comma between neighbours.
pub open spec fn joined(ids: Seq<u32>) -> Seq<char>
    decreases ids.len(),
{
    if ids.len() == 0 {
        Seq::empty()
    } else if ids.len() == 1 {
        decimal(ids[0] as nat)
    } else {
        joined(ids.drop_last()) + seq![','] + decimal(ids.last() as nat)
    }
}

/// The checkpoint text of a list of ids: a JSON array on one line, without
/// blanks.
pub open spec fn array_text(ids: Seq<u32>) -> Seq<char> {
    seq!['['] + joined(ids) + seq![']']
}

/// How a joined list is laid out: it is empty only for the empty list, has no
/// comma for a single id, and otherwise ends in a comma and the notation of
/// its last id.
proof fn joined_layout(ids: Seq<u32>)
    ensures
        ids.len() >= 1 ==> joined(ids).len() >= 1,
        ids.len() == 1 ==> forall|i: int| 0 <= i < joined(ids).len() ==> #[trigger] joined(ids)[i] != ',',
        ids.len() >= 2 ==> ({
            let head = joined(ids.drop_last());
            let tail = decimal(ids.last() as nat);
            &&& joined(ids).len() == head.len() + 1 + tail.len()
            &&& joined(ids)[head.len() as int] == ','
            &&& joined(ids).subrange(0, head.len() as int) == head
            &&& joined(ids).subrange((head.len() + 1) as int, joined(ids).len() as int) == tail
        }),
{
    if ids.len() >= 1 {
        decimal_is_digits(ids.last() as nat);
        decimal_is_digits(ids[0] as nat);
    }
    if ids.len() >= 2 {
        let head = joined(ids.drop_last());
        let tail = decimal(ids.last() as nat);
        assert(joined(ids).subrange(0, head.len() as int) =~= head);
        assert(joined(ids).subrange((head.len() + 1) as int, joined(ids).len() as int) =~= tail);
    }
}

/// Two lists that are joined to the same text are the same list.
proof fn joined_is_one_to_one(a: Seq<u32>, b: Seq<u32>)
    requires
        joined(a) == joined(b),
    ensures
        a == b,
    decreases a.len(),
{
    joined_layout(a);
    joined_layout(b);
    let text = joined(a);
    if a.len() == 0 || b.len() == 0 {
        assert(a =~= b);
    } else if a.len() == 1 || b.len() == 1 {
        if a.len() >= 2 {
            assert(text[joined(a.drop_last()).len() as int] == ',');
        }
        if b.len() >= 2 {
            assert(text[joined(b.drop_last()).len() as int] == ',');
        }
        decimal_spells(a[0] as nat);
        decimal_spells(b[0] as nat);
        assert(a =~= b);
    } else {
        let head_a = joined(a.drop_last());
        let head_b = joined(b.drop_last());
        let tail_a = decimal(a.last() as nat);
        let tail_b = decimal(b.last() as nat);
        decimal_is_digits(a.last() as nat);
        decimal_is_digits(b.last() as nat);
        if tail_a.len() < tail_b.len() {
            let at = head_a.len() - head_b.len() - 1;
            assert(text.subrange((head_b.len() + 1) as int, text.len() as int)[at] == text[head_a.len() as int]);
            assert(tail_b[at] != ',');
        }
        if tail_b.len() < tail_a.len() {
            let at = head_b.len() - head_a.len() - 1;
            assert(text.subrange((head_a.len() + 1) as int, text.len() as int)[at] == text[head_b.len() as int]);
            assert(tail_a[at] != ',');
        }
        assert(head_a == head_b);
        assert(tail_a == tail_b);
        decimal_spells(a.last() as nat);
        decimal_spells(b.last() as nat);
        joined_is_one_to_one(a.drop_last(), b.drop_last());
        assert(a =~= a.drop_last().push(a.last()));
        assert(b =~= b.drop_last().push(b.last()));
    }
}

/// A checkpoint text belongs to one list only: two lists with the same text
/// are the same list, id for id.
pub proof fn array_text_is_one_to_one(a: Seq<u32>, b: Seq<u32>)
    requires
        array_text(a) == array_text(b),
    ensures
        a == b,
{
    let text = array_text(a);
    assert(text.subrange(1, text.len() - 1) =~= joined(a));
    assert(text.subrange(1, text.len() - 1) =~= joined(b));
    joined_is_one_to_one(a, b);
}

/// Why a checkpoint could not be read or written.
#[derive(Clone, Debug, PartialEq, Eq)]
pub enum ProgressError {
    /// The checkpoint exists but is not a list of ids.
    Corrupt { message: String },
    /// The processed-set could not be put into text.
    Unwritable { message: String },
}

/// Calls `serde_json::from_str` for a `Vec<u32>`. Believed, not proved: the
/// outcome depends on the text alone, so it is `parsed_ids` of the text, with
/// an error exactly where that is `None`; and a text that is a bracketed list
/// of ids in decimal notation with commas between them, as `array_text`
/// spells it, gives exactly those ids.
#[verifier::external_body]
fn parse_ids(text: &str) -> (r: Result<Vec<u32>, serde_json::Error>)
    ensures
        r is Ok <==> parsed_ids(text@) is Some,
        r matches Ok(ids) ==> parsed_ids(text@) == Some(ids@),
        forall|ids: Seq<u32>| text@ == #[trigger] array_text(ids) ==> r is Ok && r->Ok_0@ == ids,
{
    serde_json::from_str::<Vec<u32>>(text)
}

/// Calls `serde_json::to_string` on a `Vec<u32>`. Believed, not proved: the
/// call succeeds, since it writes into memory and a list of numbers has
/// nothing that refuses to be printed; and the compact form it prints is an
/// opening bracket, the numbers in decimal notation with commas between them,
/// and a closing bracket.
#[verifier::external_body]
fn print_ids(ids: &Vec<u32>) -> (r: Result<String, serde_json::Error>)
    ensures
        r is Ok,
        r matches Ok(text) ==> text@ == array_text(ids@),
{
    serde_json::to_string(ids)
}

/// Calls `to_string` on a `serde_json::Error`, which gives its message with
/// the line and column; nothing is claimed of the text.
#[verifier::external_body]
fn describe(error: &serde_json::Error) -> (message: String) {
    error.to_string()
}

/// The ids that are already handled. Ids are only ever added.
#[derive(Clone, Debug, PartialEq, Eq)]
pub struct ProcessedSet {
    ids: Vec<u32>,
}

impl View for ProcessedSet {
    type V = Set<u32>;

    open spec fn view(&self) -> Set<u32> {
        self.listing().to_set()
    }
}

impl ProcessedSet {
    /// The ids in the order in which they were added; an id may occur twice.
    pub closed spec fn listing(&self) -> Seq<u32> {
        self.ids@
    }

    /// The empty set.
    pub fn new() -> (set: ProcessedSet)
        ensures
            set.listing() == Seq::<u32>::empty(),
            set@ == Set::<u32>::empty(),
    {
        let set = ProcessedSet { ids: Vec::new() };
        assert(set@ =~= Set::<u32>::empty());
        set
    }

    /// The set of the ids in `ids`, which keeps their order.
    pub fn from_ids(ids: Vec<u32>) -> (set: ProcessedSet)
        ensures
            set.listing() == ids@,
    {
        ProcessedSet { ids }
    }

    /// The ids in the order in which they were added.
    pub fn ids(&self) -> (ids: &Vec<u32>)
        ensures
            ids@ == self.listing(),
    {
        &self.ids
    }

    /// How many ids were added, counting repeats.
    pub fn len(&self) -> (n: usize)
        ensures
            n == self.listing().len(),
    {
        self.ids.len()
    }

    /// Whether `id` is handled.
    pub fn contains(&self, id: u32) -> (found: bool)
        ensures
            found == self@.contains(id),
    {
        let mut i: usize = 0;
        while i < self.ids.len()
            invariant
                i <= self.ids@.len(),
                forall|j: int| 0 <= j < i ==> self.ids@[j] != id,
            decreases self.ids.len() - i,
        {
            if self.ids[i] == id {
                assert(self.ids@.contains(id));
                return true;
            }
            i = i + 1;
        }
        false
    }

    /// Marks `id` as handled.
    pub fn insert(&mut self, id: u32)
        ensures
            final(self).listing() == old(self).listing().push(id),
            final(self)@ == old(self)@.insert(id),
    {
        self.ids.push(id);
        proof {
            listing_push(old(self).ids@, id);
        }
    }

    /// Marks every id of `more` as handled.
    pub fn extend(&mut self, more: &Vec<u32>)
        ensures
            final(self).listing() == old(self).listing() + more@,
            final(self)@ == old(self)@.union(more@.to_set()),
    {
        let mut i: usize = 0;
        while i < more.len()
            invariant
                i <= more@.len(),
                self.ids@ == old(self).ids@ + more@.subrange(0, i as int),
            decreases more.len() - i,
        {
            self.ids.push(more[i]);
            assert(self.ids@ =~= old(self).ids@ + more@.subrange(0, i + 1));
            i = i + 1;
        }
        assert(more@.subrange(0, i as int) =~= more@);
        proof {
            listing_concat(old(self).ids@, more@);
        }
    }
}

/// The members of a list with one more entry.
proof fn listing_push(ids: Seq<u32>, id: u32)
    ensures
        ids.push(id).to_set() == ids.to_set().insert(id),
{
    assert forall|x: u32| ids.push(id).to_set().contains(x) <==> ids.to_set().insert(id).contains(
        x,
    ) by {
        if ids.push(id).contains(x) {
            let k = choose|k: int| 0 <= k < ids.push(id).len() && ids.push(id)[k] == x;
            if k < ids.len() {
                assert(ids[k] == x);
            }
        }
        if ids.contains(x) {
            let k = choose|k: int| 0 <= k < ids.len() && ids[k] == x;
            assert(ids.push(id)[k] == x);
        }
        if x == id {
            assert(ids.push(id)[ids.len() as int] == x);
        }
    }
    assert(ids.push(id).to_set() =~= ids.to_set().insert(id));
}

/// The members of two lists put together.
proof fn listing_concat(a: Seq<u32>, b: Seq<u32>)
    ensures
        (a + b).to_set() == a.to_set().union(b.to_set()),
{
    assert forall|x: u32| (a + b).to_set().contains(x) <==> a.to_set().union(b.to_set()).contains(
        x,
    ) by {
        if (a + b).contains(x) {
            let k = choose|k: int| 0 <= k < (a + b).len() && (a + b)[k] == x;
            if k < a.len() {
                assert(a[k] == x);
            } else {
                assert(b[k - a.len()] == x);
            }
        }
        if a.contains(x) {
            let k = choose|k: int| 0 <= k < a.len() && a[k] == x;
            assert((a + b)[k] == x);
        }
        if b.contains(x) {
            let k = choose|k: int| 0 <= k < b.len() && b[k] == x;
            assert((a + b)[a.len() + k] == x);
        }
    }
    assert((a + b).to_set() =~= a.to_set().union(b.to_set()));
}

/// Reads a checkpoint. `contents` is the text of the checkpoint file, `None`
/// where no checkpoint exists yet: the run then starts from the empty set. A
/// checkpoint that is there but is no list of ids is an error, never an empty
/// set. A checkpoint as `save_vector` writes it loads back as the list that
/// was saved, so no id that was saved is missing after a restart.
pub fn load_vector(contents: Option<&str>) -> (r: Result<ProcessedSet, ProgressError>)
    ensures
        contents is None ==> r is Ok && r->Ok_0.listing() == Seq::<u32>::empty(),
        contents matches Some(text) ==> match parsed_ids(text@) {
            Some(ids) => r is Ok && r->Ok_0.listing() == ids,
            None => r is Err && r->Err_0 is Corrupt,
        },
        forall|ids: Seq<u32>|
            contents matches Some(text) && text@ == #[trigger] array_text(ids) ==> r is Ok
                && r->Ok_0.listing() == ids,
{
    match contents {
        None => Ok(ProcessedSet::new()),
        Some(text) => match parse_ids(text) {
            Ok(ids) => Ok(ProcessedSet::from_ids(ids)),
            Err(error) => Err(ProgressError::Corrupt { message: describe(&error) }),
        },
    }
}

/// Puts the whole processed-set into the text of a checkpoint, which replaces
/// the one before it. The text is made from the set alone and is always had.
pub fn save_vector(set: &ProcessedSet) -> (r: Result<String, ProgressError>)
    ensures
        r is Ok,
        r->Ok_0@ == array_text(set.listing()),
{
    match print_ids(set.ids()) {
        Ok(text) => Ok(text),
        Err(error) => Err(ProgressError::Unwritable { message: describe(&error) }),
    }
}

} // verus!
