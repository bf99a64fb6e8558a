//! The list of names of the demo panel: entries of the form
//! `Surname, Name`, which can be added, replaced, removed, taken apart again
//! and filtered by the start of their text.

use vstd::prelude::*;
use vstd::string::*;

verus! {

/// The text that `str::to_lowercase` makes of a text.
pub uninterp spec fn lowercase_of(text: Seq<char>) -> Seq<char>;

/// The text that `str::trim` leaves of a text.
pub uninterp spec fn trimmed_of(text: Seq<char>) -> Seq<char>;

/// The entry for a surname and a name.
pub open spec fn full_name(surname: Seq<char>, name: Seq<char>) -> Seq<char> {
    surname + seq![',', ' '] + name
}

/// Whether the entry passes the filter: whether its text starts with the
/// prefix, both taken in lower case.
pub open spec fn passes(entry: Seq<char>, prefix: Seq<char>) -> bool {
    lowercase_of(prefix).is_prefix_of(lowercase_of(entry))
}

/// The place of the first comma in `s`, or the length of `s` where it has
/// none.
pub open spec fn first_comma(s: Seq<char>) -> int
    decreases s.len(),
{
    if s.len() == 0 {
        0
    } else if s[0] == ',' {
        0
    } else {
        1 + first_comma(s.drop_first())
    }
}

/// The two fields of an entry: what stands before its first comma, and what
/// stands between that comma and the next, or the end. An entry without a
/// comma has no fields.
pub open spec fn entry_fields(entry: Seq<char>) -> Option<(Seq<char>, Seq<char>)> {
    let cut = first_comma(entry);
    if cut == entry.len() {
        None
    } else {
        let rest = entry.subrange(cut + 1, entry.len() as int);
        Some((entry.subrange(0, cut), rest.subrange(0, first_comma(rest))))
    }
}

/// The surname and the name of an entry: its two fields, the second without
/// the blanks around it.
pub open spec fn entry_parts(entry: Seq<char>) -> Option<(Seq<char>, Seq<char>)> {
    match entry_fields(entry) {
        Some((surname, name)) => Some((surname, trimmed_of(name))),
        None => None,
    }
}

/// The texts of some strings.
pub open spec fn texts(strings: Seq<String>) -> Seq<Seq<char>> {
    Seq::new(strings.len(), |i: int| strings[i]@)
}

/// The entries whose companion in `lowered`, at the same place, starts with
/// `wanted`, in their order. An entry without a companion is left out.
pub open spec fn kept(
    entries: Seq<Seq<char>>,
    lowered: Seq<Seq<char>>,
    wanted: Seq<char>,
) -> Seq<Seq<char>>
    decreases entries.len(),
{
    if entries.len() == 0 {
        Seq::empty()
    } else {
        let before = kept(entries.drop_last(), lowered, wanted);
        if entries.len() <= lowered.len() && wanted.is_prefix_of(lowered[entries.len() - 1]) {
            before.push(entries.last())
        } else {
            before
        }
    }
}

/// Whether `i` is the place of the first entry of `entries` that reads
/// `entry`.
pub open spec fn first_place(entries: Seq<Seq<char>>, entry: Seq<char>, i: int) -> bool {
    &&& 0 <= i < entries.len()
    &&& entries[i] == entry
    &&& forall|j: int| 0 <= j < i ==> entries[j] != entry
}

/// The list of names.
#[derive(Debug)]
pub struct Roster {
    names: Vec<String>,
}

/// Calls `str::to_lowercase`. Trusted: the result is what `lowercase_of`
/// names.
#[verifier::external_body]
fn lowercase(text: &str) -> (r: String)
    ensures
        r@ == lowercase_of(text@),
{
    text.to_lowercase()
}

/// Calls `str::trim`. Trusted: the result is what `trimmed_of` names.
#[verifier::external_body]
fn trimmed(text: &str) -> (r: &str)
    ensures
        r@ == trimmed_of(text@),
{
    text.trim()
}

/// Calls `str::starts_with` with a string as the pattern. Trusted: it says
/// whether the characters of `prefix` are the first characters of `text`.
#[verifier::external_body]
fn starts_with(text: &str, prefix: &str) -> (b: bool)
    ensures
        b == prefix@.is_prefix_of(text@),
{
    text.starts_with(prefix)
}

/// The entry for a surname and a name.
pub fn formatted_name(surname: &str, name: &str) -> (entry: String)
    ensures
        entry@ == full_name(surname@, name@),
{
    let mut entry = String::from_str(surname);
    entry.append(", ");
    entry.append(name);
    proof {
        reveal_strlit(", ");
        assert(", "@ =~= seq![',', ' ']);
    }
    entry
}

/// The place of the first comma of `text` at or after `from`, or the length
/// of `text` where there is none.
fn find_comma(text: &str, from: usize) -> (at: usize)
    requires
        from <= text@.len(),
    ensures
        from <= at <= text@.len(),
        at == from + first_comma(text@.subrange(from as int, text@.len() as int)),
    decreases text@.len() - from,
{
    let n = text.unicode_len();
    let ghost tail = text@.subrange(from as int, n as int);
    if from == n {
        from
    } else if text.get_char(from) == ',' {
        assert(tail[0] == text@[from as int]);
        from
    } else {
        assert(tail[0] == text@[from as int]);
        assert(tail.drop_first() =~= text@.subrange(from + 1, n as int));
        find_comma(text, from + 1)
    }
}

/// Cuts an entry at its commas into its two fields. `None` for an entry
/// without a comma.
pub fn split_entry(entry: &str) -> (fields: Option<(String, String)>)
    ensures
        match (fields, entry_fields(entry@)) {
            (Some((surname, name)), Some((s, n))) => surname@ == s && name@ == n,
            (None, None) => true,
            _ => false,
        },
{
    let n = entry.unicode_len();
    let cut = find_comma(entry, 0);
    assert(entry@.subrange(0, n as int) =~= entry@);
    if cut == n {
        None
    } else {
        let next = find_comma(entry, cut + 1);
        let surname = entry.substring_char(0, cut);
        let name = entry.substring_char(cut + 1, next);
        proof {
            let rest = entry@.subrange(cut + 1, n as int);
            assert(rest.subrange(0, first_comma(rest)) =~= entry@.subrange(cut + 1, next as int));
        }
        Some((String::from_str(surname), String::from_str(name)))
    }
}

/// Takes an entry apart into surname and name, the name without the blanks
/// around it. `None` for an entry without a comma.
pub fn select(entry: &str) -> (parts: Option<(String, String)>)
    ensures
        match (parts, entry_parts(entry@)) {
            (Some((surname, name)), Some((s, n))) => surname@ == s && name@ == n,
            (None, None) => true,
            _ => false,
        },
{
    match split_entry(entry) {
        Some((surname, name)) => Some((surname, String::from_str(trimmed(name.as_str())))),
        None => None,
    }
}

/// The entries whose companion in `lowered`, at the same place, starts with
/// `wanted`, in their order.
pub fn matching(entries: &Vec<String>, lowered: &Vec<String>, wanted: &str) -> (shown: Vec<String>)
    ensures
        texts(shown@) == kept(texts(entries@), texts(lowered@), wanted@),
{
    let ghost all = texts(entries@);
    let mut shown: Vec<String> = Vec::new();
    let mut i: usize = 0;
    assert(all.subrange(0, 0) =~= Seq::<Seq<char>>::empty());
    assert(texts(shown@) =~= Seq::<Seq<char>>::empty());
    while i < entries.len()
        invariant
            i <= entries@.len(),
            all == texts(entries@),
            texts(shown@) == kept(all.subrange(0, i as int), texts(lowered@), wanted@),
        decreases entries@.len() - i,
    {
        let ghost listed = texts(shown@);
        proof {
            assert(all.subrange(0, i + 1).drop_last() =~= all.subrange(0, i as int));
            assert(all.subrange(0, i + 1).last() == entries@[i as int]@);
        }
        if i < lowered.len() && starts_with(lowered[i].as_str(), wanted) {
            shown.push(entries[i].clone());
            assert(texts(shown@) =~= listed.push(entries@[i as int]@));
        }
        i += 1;
    }
    assert(all.subrange(0, i as int) =~= all);
    shown
}

/// Keeping the entries whose lower-case text starts with the lower-case
/// prefix is filtering by `passes`.
proof fn lemma_kept_is_filter(entries: Seq<Seq<char>>, lowered: Seq<Seq<char>>, prefix: Seq<char>)
    requires
        entries.len() <= lowered.len(),
        forall|i: int| 0 <= i < entries.len() ==> lowered[i] == lowercase_of(#[trigger] entries[i]),
    ensures
        kept(entries, lowered, lowercase_of(prefix)) == entries.filter(
            |entry: Seq<char>| passes(entry, prefix),
        ),
    decreases entries.len(),
{
    reveal(Seq::filter);
    if entries.len() > 0 {
        lemma_kept_is_filter(entries.drop_last(), lowered, prefix);
    }
}

impl View for Roster {
    type V = Seq<Seq<char>>;

    closed spec fn view(&self) -> Seq<Seq<char>> {
        Seq::new(self.names@.len(), |i: int| self.names@[i]@)
    }
}

impl Roster {
    /// A list without entries.
    pub fn new() -> (roster: Roster)
        ensures
            roster@ == Seq::<Seq<char>>::empty(),
    {
        let roster = Roster { names: Vec::new() };
        assert(roster@ =~= Seq::<Seq<char>>::empty());
        roster
    }

    /// The number of entries.
    pub fn len(&self) -> (n: usize)
        ensures
            n == self@.len(),
    {
        self.names.len()
    }

    /// The entry at place `i`, if the list is that long.
    pub fn get(&self, i: usize) -> (entry: Option<&str>)
        ensures
            match entry {
                Some(text) => i < self@.len() && text@ == self@[i as int],
                None => i >= self@.len(),
            },
    {
        if i < self.names.len() {
            Some(self.names[i].as_str())
        } else {
            None
        }
    }

    /// Adds the entry for a surname and a name at the end.
    pub fn create(&mut self, surname: &str, name: &str)
        ensures
            final(self)@ == old(self)@.push(full_name(surname@, name@)),
    {
        self.names.push(formatted_name(surname, name));
        assert(self@ =~= old(self)@.push(full_name(surname@, name@)));
    }

    /// The place of the first entry that reads `entry`.
    pub fn position(&self, entry: &str) -> (place: Option<usize>)
        ensures
            match place {
                Some(i) => first_place(self@, entry@, i as int),
                None => !self@.contains(entry@),
            },
    {
        let wanted = String::from_str(entry);
        let mut i: usize = 0;
        while i < self.names.len()
            invariant
                i <= self.names@.len(),
                wanted@ == entry@,
                forall|j: int| 0 <= j < i ==> self@[j] != entry@,
            decreases self.names@.len() - i,
        {
            if self.names[i] == wanted {
                return Some(i);
            }
            i += 1;
        }
        None
    }

    /// Replaces the first entry that reads `selected` by the entry for a
    /// surname and a name, and says where it stood. Without such an entry
    /// the list stays as it is.
    pub fn update(&mut self, selected: &str, surname: &str, name: &str) -> (place: Option<usize>)
        ensures
            match place {
                Some(i) => first_place(old(self)@, selected@, i as int) && final(self)@ == old(
                    self,
                )@.update(i as int, full_name(surname@, name@)),
                None => !old(self)@.contains(selected@) && final(self)@ == old(self)@,
            },
    {
        match self.position(selected) {
            Some(i) => {
                self.names.set(i, formatted_name(surname, name));
                assert(self@ =~= old(self)@.update(i as int, full_name(surname@, name@)));
                Some(i)
            },
            None => None,
        }
    }

    /// Removes the first entry that reads `selected`, and says where it
    /// stood. Without such an entry the list stays as it is.
    pub fn delete(&mut self, selected: &str) -> (place: Option<usize>)
        ensures
            match place {
                Some(i) => first_place(old(self)@, selected@, i as int) && final(self)@ == old(
                    self,
                )@.remove(i as int),
                None => !old(self)@.contains(selected@) && final(self)@ == old(self)@,
            },
    {
        match self.position(selected) {
            Some(i) => {
                let _ = self.names.remove(i);
                assert(self@ =~= old(self)@.remove(i as int));
                Some(i)
            },
            None => None,
        }
    }

    /// The entries that pass the filter, in the order of the list.
    pub fn filter(&self, prefix: &str) -> (shown: Vec<String>)
        ensures
            texts(shown@) == self@.filter(|entry: Seq<char>| passes(entry, prefix@)),
    {
        let wanted = lowercase(prefix);
        let mut lowered: Vec<String> = Vec::new();
        let mut i: usize = 0;
        while i < self.names.len()
            invariant
                i <= self.names@.len(),
                lowered@.len() == i,
                forall|k: int| 0 <= k < i ==> lowered@[k]@ == lowercase_of(self.names@[k]@),
            decreases self.names@.len() - i,
        {
            lowered.push(lowercase(self.names[i].as_str()));
            i += 1;
        }
        proof {
            assert(texts(self.names@) =~= self@);
            lemma_kept_is_filter(self@, texts(lowered@), prefix@);
        }
        matching(&self.names, &lowered, wanted.as_str())
    }
}

} // verus!
