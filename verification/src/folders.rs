//! The chain folders below the application's base folder: how they are
//! named, how a listing of them is ordered, and how the next free one is
//! found.

use crate::text::{
    chars_of, decimal_digits, parse_i32, parse_i32_spec, push_decimal, starts_with,
    starts_with_spec, texts, theorem_decimal_round_trip,
};
use vstd::prelude::*;

verus! {

/// The name of the base folder, below the user's home directory.
pub fn base_folder_name() -> (name: &'static str)
    ensures
        name@ == ".concordium-lc1c"@,
{
    ".concordium-lc1c"
}

/// What the name of every chain folder begins with.
pub open spec fn chain_prefix() -> Seq<char> {
    "chain-"@
}

/// Whether a name is that of a chain folder.
pub open spec fn is_chain_folder_spec(name: Seq<char>) -> bool {
    starts_with_spec(name, chain_prefix())
}

/// The number of a chain folder: what follows the prefix, read as a 32-bit
/// signed decimal number, and 0 where that is no such number. A name that is
/// not a chain folder's has the number 0.
pub open spec fn chain_number_spec(name: Seq<char>) -> int {
    if is_chain_folder_spec(name) {
        match parse_i32_spec(name.skip(chain_prefix().len() as int)) {
            Some(number) => number as int,
            None => 0,
        }
    } else {
        0
    }
}

/// The name of the chain folder with the given number.
pub open spec fn chain_folder_name_spec(number: nat) -> Seq<char> {
    chain_prefix() + decimal_digits(number)
}

/// The name of the chain folder with the given number.
pub fn chain_folder_name(number: u64) -> (name: String)
    ensures
        name@ == chain_folder_name_spec(number as nat),
{
    let mut name = "chain-".to_owned();
    push_decimal(&mut name, number);
    name
}

/// The name made for a number is a chain folder's, and its number is the
/// one it was made for.
pub proof fn theorem_name_carries_number(number: nat)
    requires
        number <= i32::MAX,
    ensures
        is_chain_folder_spec(chain_folder_name_spec(number)),
        chain_number_spec(chain_folder_name_spec(number)) == number,
{
    let name = chain_folder_name_spec(number);
    let width = chain_prefix().len() as int;
    assert(name.take(width) =~= chain_prefix());
    assert(name.skip(width) =~= decimal_digits(number));
    theorem_decimal_round_trip(number);
}

/// Whether `name` is that of a chain folder.
pub fn is_chain_folder(name: &str) -> (b: bool)
    ensures
        b == is_chain_folder_spec(name@),
{
    let chars = chars_of(name);
    let prefix = chars_of("chain-");
    starts_with(&chars, &prefix)
}

/// The characters of `chars` from position `from` on.
fn tail(chars: &Vec<char>, from: usize) -> (rest: Vec<char>)
    requires
        from <= chars@.len(),
    ensures
        rest@ == chars@.skip(from as int),
{
    let mut rest: Vec<char> = Vec::new();
    let mut i: usize = from;
    while i < chars.len()
        invariant
            from <= i <= chars@.len(),
            rest@ == chars@.subrange(from as int, i as int),
        decreases chars@.len() - i,
    {
        rest.push(chars[i]);
        i += 1;
        assert(rest@ =~= chars@.subrange(from as int, i as int));
    }
    assert(rest@ =~= chars@.skip(from as int));
    rest
}

/// The number of the folder `name`.
pub fn chain_number(name: &str) -> (number: i32)
    ensures
        number == chain_number_spec(name@),
{
    let chars = chars_of(name);
    let prefix = chars_of("chain-");
    if !starts_with(&chars, &prefix) {
        return 0;
    }
    let suffix = tail(&chars, prefix.len());
    match parse_i32(&suffix) {
        Some(number) => number,
        None => 0,
    }
}

/// `sorted` with `name` put behind the last name whose number is not above
/// its own.
pub open spec fn insert_by_number(sorted: Seq<Seq<char>>, name: Seq<char>) -> Seq<Seq<char>>
    decreases sorted.len(),
{
    if sorted.len() == 0 {
        seq![name]
    } else if chain_number_spec(sorted.last()) > chain_number_spec(name) {
        insert_by_number(sorted.drop_last(), name).push(sorted.last())
    } else {
        sorted.push(name)
    }
}

/// The chain folders among `names`, ordered by number; folders of one number
/// stay in the order in which `names` has them.
pub open spec fn chain_folders_of(names: Seq<Seq<char>>) -> Seq<Seq<char>>
    decreases names.len(),
{
    if names.len() == 0 {
        Seq::empty()
    } else if is_chain_folder_spec(names.last()) {
        insert_by_number(chain_folders_of(names.drop_last()), names.last())
    } else {
        chain_folders_of(names.drop_last())
    }
}

/// No name has a number above that of a name behind it.
pub open spec fn ordered_by_number(names: Seq<Seq<char>>) -> bool {
    forall|i: int, j: int|
        0 <= i < j < names.len() ==> chain_number_spec(#[trigger] names[i]) <= chain_number_spec(
            #[trigger] names[j],
        )
}

proof fn lemma_insert_position(sorted: Seq<Seq<char>>, name: Seq<char>, at: int)
    requires
        0 <= at <= sorted.len(),
        forall|k: int|
            at <= k < sorted.len() ==> chain_number_spec(#[trigger] sorted[k]) > chain_number_spec(
                name,
            ),
        at > 0 ==> chain_number_spec(sorted[at - 1]) <= chain_number_spec(name),
    ensures
        insert_by_number(sorted, name) == sorted.insert(at, name),
    decreases sorted.len(),
{
    if sorted.len() == 0 {
        assert(sorted.insert(at, name) =~= seq![name]);
    } else if at == sorted.len() {
        assert(sorted.insert(at, name) =~= sorted.push(name));
    } else {
        let front = sorted.drop_last();
        assert(chain_number_spec(sorted[sorted.len() - 1]) > chain_number_spec(name));
        assert forall|k: int| at <= k < front.len() implies chain_number_spec(
            #[trigger] front[k],
        ) > chain_number_spec(name) by {
            assert(front[k] == sorted[k]);
        }
        if at > 0 {
            assert(front[at - 1] == sorted[at - 1]);
        }
        lemma_insert_position(front, name, at);
        assert(front.insert(at, name).push(sorted.last()) =~= sorted.insert(at, name));
    }
}

proof fn lemma_insert_keeps_order(sorted: Seq<Seq<char>>, name: Seq<char>)
    requires
        ordered_by_number(sorted),
    ensures
        ordered_by_number(insert_by_number(sorted, name)),
        insert_by_number(sorted, name).to_multiset() == sorted.to_multiset().insert(name),
        insert_by_number(sorted, name).len() == sorted.len() + 1,
    decreases sorted.len(),
{
    broadcast use vstd::seq_lib::group_to_multiset_ensures;

    let out = insert_by_number(sorted, name);
    if sorted.len() == 0 {
        assert(out =~= Seq::<Seq<char>>::empty().push(name));
        assert(sorted =~= Seq::<Seq<char>>::empty());
    } else if chain_number_spec(sorted.last()) > chain_number_spec(name) {
        let front = sorted.drop_last();
        let inner = insert_by_number(front, name);
        assert forall|i: int, j: int| 0 <= i < j < front.len() implies chain_number_spec(
            #[trigger] front[i],
        ) <= chain_number_spec(#[trigger] front[j]) by {
            assert(front[i] == sorted[i] && front[j] == sorted[j]);
        }
        lemma_insert_keeps_order(front, name);
        assert(sorted =~= front.push(sorted.last()));
        assert forall|i: int, j: int| 0 <= i < j < out.len() implies chain_number_spec(
            #[trigger] out[i],
        ) <= chain_number_spec(#[trigger] out[j]) by {
            if j < inner.len() {
                assert(out[i] == inner[i] && out[j] == inner[j]);
            } else {
                assert(out[i] == inner[i]);
                assert(out[j] == sorted.last());
                // every element of `inner` is `name` or an element of `front`
                assert(inner.to_multiset().count(inner[i]) > 0);
                if inner[i] != name {
                    assert(front.to_multiset().count(inner[i]) > 0);
                    let k = choose|k: int| 0 <= k < front.len() && front[k] == inner[i];
                    assert(sorted[k] == inner[i]);
                    assert(chain_number_spec(sorted[k]) <= chain_number_spec(
                        sorted[sorted.len() - 1],
                    ));
                }
            }
        }
        assert(out.to_multiset() =~= sorted.to_multiset().insert(name));
    } else {
        assert forall|i: int, j: int| 0 <= i < j < out.len() implies chain_number_spec(
            #[trigger] out[i],
        ) <= chain_number_spec(#[trigger] out[j]) by {
            if j < sorted.len() {
                assert(out[i] == sorted[i] && out[j] == sorted[j]);
            } else {
                assert(out[i] == sorted[i]);
                assert(chain_number_spec(sorted[i]) <= chain_number_spec(
                    sorted[sorted.len() - 1],
                ));
            }
        }
    }
}

/// The listing is in the order of the numbers, and it holds the chain
/// folders among `names`, each as often as `names` does, and nothing else.
pub proof fn theorem_listing_is_sorted_selection(names: Seq<Seq<char>>)
    ensures
        ordered_by_number(chain_folders_of(names)),
        chain_folders_of(names).to_multiset() == names.filter(
            |name: Seq<char>| is_chain_folder_spec(name),
        ).to_multiset(),
        chain_folders_of(names).len() <= names.len(),
    decreases names.len(),
{
    broadcast use vstd::seq_lib::group_to_multiset_ensures;

    let chosen = |name: Seq<char>| is_chain_folder_spec(name);
    if names.len() == 0 {
        reveal(Seq::filter);
        assert(names.filter(chosen) =~= Seq::<Seq<char>>::empty());
    } else {
        let front = names.drop_last();
        theorem_listing_is_sorted_selection(front);
        assert(names =~= front.push(names.last()));
        reveal(Seq::filter);
        if is_chain_folder_spec(names.last()) {
            lemma_insert_keeps_order(chain_folders_of(front), names.last());
        }
    }
}

/// The chain folders among the names of a directory's folders, ordered by
/// number.
pub fn list_chain_folders(names: Vec<String>) -> (folders: Vec<String>)
    ensures
        texts(folders@) == chain_folders_of(texts(names@)),
{
    let mut folders: Vec<String> = Vec::new();
    let mut numbers: Vec<i32> = Vec::new();
    let ghost all = names@;
    assert(texts(all).take(0) =~= Seq::<Seq<char>>::empty());
    for name in it: names
        invariant
            all == it.seq(),
            texts(folders@) == chain_folders_of(texts(all).take(it.index() as int)),
            numbers@.len() == folders@.len(),
            forall|k: int|
                0 <= k < folders@.len() ==> (#[trigger] numbers@[k]) as int == chain_number_spec(
                    folders@[k]@,
                ),
    {
        let ghost seen = texts(all).take(it.index() as int);
        let ghost more = texts(all).take(it.index() + 1);
        assert(more.drop_last() =~= seen);
        assert(more.last() == name@);
        if is_chain_folder(name.as_str()) {
            let number = chain_number(name.as_str());
            let mut at: usize = folders.len();
            while at > 0 && numbers[at - 1] > number
                invariant
                    at <= folders@.len(),
                    numbers@.len() == folders@.len(),
                    forall|k: int|
                        at <= k < numbers@.len() ==> (#[trigger] numbers@[k]) > number,
                decreases at,
            {
                at -= 1;
            }
            proof {
                let sorted = texts(folders@);
                assert forall|k: int| at <= k < sorted.len() implies chain_number_spec(
                    #[trigger] sorted[k],
                ) > chain_number_spec(name@) by {
                    assert(numbers@[k] > number);
                }
                if at > 0 {
                    assert(numbers@[at - 1] as int == chain_number_spec(folders@[at - 1]@));
                }
                lemma_insert_position(sorted, name@, at as int);
                assert(texts(folders@.insert(at as int, name)) =~= sorted.insert(
                    at as int,
                    name@,
                ));
            }
            folders.insert(at, name);
            numbers.insert(at, number);
        }
    }
    assert(texts(all).take(all.len() as int) =~= texts(all));
    folders
}

/// The search for the next free chain folder: numbers are tried from 1 up.
#[derive(Clone, Copy, Debug, PartialEq, Eq)]
pub struct FolderSearch {
    /// The number being tried.
    pub number: u64,
}

/// What the search asks for next.
#[derive(Clone, Debug, PartialEq, Eq)]
pub enum FolderCommand {
    /// Say whether a folder of this name exists.
    Probe { name: String },
    /// Create the folder of this name: it is the one searched for.
    Create { name: String },
    /// Every number has been tried.
    Exhausted,
}

impl FolderSearch {
    /// The search after the folder being tried was found to exist
    /// (`exists`) or not.
    pub open spec fn step_spec(self, exists: bool) -> FolderSearch {
        if exists && self.number < u64::MAX {
            FolderSearch { number: (self.number + 1) as u64 }
        } else {
            self
        }
    }

    /// The search after each of `answers` in turn.
    pub open spec fn after(self, answers: Seq<bool>) -> FolderSearch
        decreases answers.len(),
    {
        if answers.len() == 0 {
            self
        } else {
            self.step_spec(answers[0]).after(answers.drop_first())
        }
    }

    /// The search at its start, and the first name to ask about.
    pub fn begin() -> (start: (FolderSearch, FolderCommand))
        ensures
            start.0.number == 1,
            start.1 matches FolderCommand::Probe { name } && name@ == chain_folder_name_spec(1),
    {
        (FolderSearch { number: 1 }, FolderCommand::Probe { name: chain_folder_name(1) })
    }

    /// Takes the answer for the name being tried: a name that does not exist
    /// is the one to create, one that exists makes way for the next.
    pub fn step(&mut self, exists: bool) -> (cmd: FolderCommand)
        ensures
            *final(self) == old(self).step_spec(exists),
            !exists ==> (cmd matches FolderCommand::Create { name } && name@
                == chain_folder_name_spec(old(self).number as nat)),
            exists && old(self).number < u64::MAX ==> (cmd matches FolderCommand::Probe { name }
                && name@ == chain_folder_name_spec((old(self).number + 1) as nat)),
            exists && old(self).number == u64::MAX ==> cmd == FolderCommand::Exhausted,
    {
        if !exists {
            FolderCommand::Create { name: chain_folder_name(self.number) }
        } else if self.number < u64::MAX {
            self.number = self.number + 1;
            FolderCommand::Probe { name: chain_folder_name(self.number) }
        } else {
            FolderCommand::Exhausted
        }
    }
}

/// After `taken` names in a row were found to exist, the search stands at
/// the number after them: the folder it creates is the first free one.
pub proof fn theorem_first_free_number(taken: nat)
    requires
        taken < u64::MAX,
    ensures
        (FolderSearch { number: 1 }).after(Seq::new(taken, |i: int| true)).number == taken + 1,
        (FolderSearch { number: 1 }).after(Seq::new(taken, |i: int| true).push(false)).number
            == taken + 1,
{
    lemma_search_advances(FolderSearch { number: 1 }, taken);
    lemma_search_then_free(FolderSearch { number: 1 }, taken);
}

proof fn lemma_search_advances(search: FolderSearch, taken: nat)
    requires
        search.number + taken <= u64::MAX,
    ensures
        search.after(Seq::new(taken, |i: int| true)).number == search.number + taken,
    decreases taken,
{
    let answers = Seq::new(taken, |i: int| true);
    if taken > 0 {
        assert(answers.drop_first() =~= Seq::new((taken - 1) as nat, |i: int| true));
        lemma_search_advances(search.step_spec(true), (taken - 1) as nat);
    }
}

proof fn lemma_search_then_free(search: FolderSearch, taken: nat)
    requires
        search.number + taken <= u64::MAX,
    ensures
        search.after(Seq::new(taken, |i: int| true).push(false)).number == search.number + taken,
    decreases taken,
{
    let answers = Seq::new(taken, |i: int| true).push(false);
    if taken > 0 {
        assert(answers.drop_first() =~= Seq::new((taken - 1) as nat, |i: int| true).push(false));
        lemma_search_then_free(search.step_spec(true), (taken - 1) as nat);
    } else {
        assert(answers.drop_first() =~= Seq::<bool>::empty());
        assert(search.step_spec(false).after(answers.drop_first()) == search);
    }
}

} // verus!
