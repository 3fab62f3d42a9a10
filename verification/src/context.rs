//! The Message Context: what accumulates as a Message is handled.
//!
//! Content is immutable and context accumulates; a value promoted into context
//! drives Subscription evaluation without the content being parsed again.
//! Context does not decide anything itself: promotion writes it, routing reads
//! it.
use vstd::prelude::*;

use crate::text::{
    chars_of, compare_chars, key_less, lemma_key_less_transitive, lemma_key_less_trichotomy,
    KeyOrder,
};

verus! {

/// A promoted property's value: one scalar.
#[derive(Debug, PartialEq, Eq)]
pub enum ContextValue {
    Text(String),
    Integer(i64),
    Boolean(bool),
}

impl Clone for ContextValue {
    /// The same value.
    fn clone(&self) -> (r: ContextValue)
        ensures
            r == *self,
    {
        match self {
            ContextValue::Text(text) => ContextValue::Text(text.clone()),
            ContextValue::Integer(n) => ContextValue::Integer(*n),
            ContextValue::Boolean(b) => ContextValue::Boolean(*b),
        }
    }
}

/// Whether each key comes strictly before the next, so that no key is there
/// twice and the entries stand in the order of their keys.
pub open spec fn keys_increasing(s: Seq<(String, ContextValue)>) -> bool {
    forall|i: int, j: int| 0 <= i < j < s.len() ==> key_less(#[trigger] s[i].0@, #[trigger] s[j].0@)
}

/// A position of the entries that carries `k`, where one does.
pub open spec fn position_of(s: Seq<(String, ContextValue)>, k: Seq<char>) -> int {
    choose|i: int| 0 <= i < s.len() && #[trigger] s[i].0@ == k
}

/// The entries as a map from each key to its value.
pub open spec fn entries_map(s: Seq<(String, ContextValue)>) -> Map<Seq<char>, ContextValue> {
    Map::new(
        |k: Seq<char>| exists|i: int| 0 <= i < s.len() && #[trigger] s[i].0@ == k,
        |k: Seq<char>| s[position_of(s, k)].1,
    )
}

/// The properties promoted so far, each under its name, in the order of their
/// names.
#[derive(Debug, PartialEq, Eq)]
pub struct MessageContext {
    entries: Vec<(String, ContextValue)>,
}

impl View for MessageContext {
    type V = Map<Seq<char>, ContextValue>;

    closed spec fn view(&self) -> Map<Seq<char>, ContextValue> {
        entries_map(self.entries@)
    }
}

/// Each entry of increasing entries is in the map, with its value.
proof fn lemma_entry_in_map(s: Seq<(String, ContextValue)>, i: int)
    requires
        keys_increasing(s),
        0 <= i < s.len(),
    ensures
        entries_map(s).contains_key(s[i].0@),
        entries_map(s)[s[i].0@] == s[i].1,
{
    let k = s[i].0@;
    assert(exists|j: int| 0 <= j < s.len() && #[trigger] s[j].0@ == k);
    let j = position_of(s, k);
    if j < i {
        assert(key_less(s[j].0@, s[i].0@));
        lemma_key_less_trichotomy(s[j].0@, s[i].0@);
    } else if i < j {
        assert(key_less(s[i].0@, s[j].0@));
        lemma_key_less_trichotomy(s[i].0@, s[j].0@);
    }
    assert(j == i);
}

/// A key that no entry carries is not in the map.
proof fn lemma_absent_from_map(s: Seq<(String, ContextValue)>, k: Seq<char>)
    requires
        forall|i: int| 0 <= i < s.len() ==> #[trigger] s[i].0@ != k,
    ensures
        !entries_map(s).contains_key(k),
{
}

/// A key of the map is carried by some entry.
proof fn lemma_key_has_entry(s: Seq<(String, ContextValue)>, k: Seq<char>) -> (i: int)
    requires
        entries_map(s).contains_key(k),
    ensures
        0 <= i < s.len(),
        s[i].0@ == k,
{
    position_of(s, k)
}

/// Replacing the value of an entry keeps the keys increasing and maps its key
/// to the new value.
proof fn lemma_replace_entry(
    s: Seq<(String, ContextValue)>,
    pos: int,
    x: (String, ContextValue),
)
    requires
        keys_increasing(s),
        0 <= pos < s.len(),
        s[pos].0@ == x.0@,
    ensures
        keys_increasing(s.update(pos, x)),
        entries_map(s.update(pos, x)) == entries_map(s).insert(x.0@, x.1),
{
    let s2 = s.update(pos, x);
    assert forall|i: int, j: int| 0 <= i < j < s2.len() implies key_less(
        #[trigger] s2[i].0@,
        #[trigger] s2[j].0@,
    ) by {
        assert(s2[i].0@ == s[i].0@);
        assert(s2[j].0@ == s[j].0@);
    }
    let m = entries_map(s).insert(x.0@, x.1);
    assert forall|k: Seq<char>| #[trigger] entries_map(s2).contains_key(k) <==> m.contains_key(k) by {
        if entries_map(s2).contains_key(k) {
            let i = lemma_key_has_entry(s2, k);
            assert(s[i].0@ == k);
        }
        if entries_map(s).contains_key(k) {
            let i = lemma_key_has_entry(s, k);
            assert(s2[i].0@ == k);
        }
        if k == x.0@ {
            assert(s2[pos].0@ == k);
        }
    }
    assert forall|k: Seq<char>| #[trigger] entries_map(s2).contains_key(k) implies entries_map(s2)[k]
        == m[k] by {
        if k == x.0@ {
            lemma_entry_in_map(s2, pos);
        } else {
            let i = lemma_key_has_entry(s2, k);
            lemma_entry_in_map(s2, i);
            lemma_entry_in_map(s, i);
        }
    }
    assert(entries_map(s2) =~= m);
}

/// Inserting an entry where its key belongs keeps the keys increasing and adds
/// its key with its value.
proof fn lemma_insert_entry(
    s: Seq<(String, ContextValue)>,
    pos: int,
    x: (String, ContextValue),
)
    requires
        keys_increasing(s),
        0 <= pos <= s.len(),
        forall|j: int| 0 <= j < pos ==> key_less(#[trigger] s[j].0@, x.0@),
        forall|j: int| pos <= j < s.len() ==> key_less(x.0@, #[trigger] s[j].0@),
    ensures
        keys_increasing(s.insert(pos, x)),
        entries_map(s.insert(pos, x)) == entries_map(s).insert(x.0@, x.1),
{
    let s2 = s.insert(pos, x);
    assert forall|i: int, j: int| 0 <= i < j < s2.len() implies key_less(
        #[trigger] s2[i].0@,
        #[trigger] s2[j].0@,
    ) by {
        if j < pos {
            assert(key_less(s[i].0@, s[j].0@));
        } else if j == pos {
            assert(key_less(s[i].0@, x.0@));
        } else if i < pos {
            assert(key_less(s[i].0@, x.0@));
            assert(key_less(x.0@, s[j - 1].0@));
            lemma_key_less_transitive(s[i].0@, x.0@, s[j - 1].0@);
        } else if i == pos {
            assert(key_less(x.0@, s[j - 1].0@));
        } else {
            assert(key_less(s[i - 1].0@, s[j - 1].0@));
        }
    }
    let m = entries_map(s).insert(x.0@, x.1);
    assert forall|k: Seq<char>| #[trigger] entries_map(s2).contains_key(k) <==> m.contains_key(k) by {
        if entries_map(s2).contains_key(k) {
            let i = lemma_key_has_entry(s2, k);
            if i < pos {
                assert(s[i].0@ == k);
            } else if i > pos {
                assert(s[i - 1].0@ == k);
            }
        }
        if entries_map(s).contains_key(k) {
            let i = lemma_key_has_entry(s, k);
            if i < pos {
                assert(s2[i].0@ == k);
            } else {
                assert(s2[i + 1].0@ == k);
            }
        }
        if k == x.0@ {
            assert(s2[pos].0@ == k);
        }
    }
    assert forall|k: Seq<char>| #[trigger] entries_map(s2).contains_key(k) implies entries_map(s2)[k]
        == m[k] by {
        if k == x.0@ {
            lemma_entry_in_map(s2, pos);
        } else {
            let i = lemma_key_has_entry(s2, k);
            lemma_entry_in_map(s2, i);
            if i < pos {
                lemma_entry_in_map(s, i);
            } else {
                lemma_entry_in_map(s, i - 1);
            }
        }
    }
    assert(entries_map(s2) =~= m);
}

impl Clone for MessageContext {
    /// The same entries.
    fn clone(&self) -> (r: MessageContext)
        ensures
            r@ == self@,
    {
        proof {
            use_type_invariant(self);
        }
        let mut entries: Vec<(String, ContextValue)> = Vec::new();
        let n = self.entries.len();
        let mut i: usize = 0;
        while i < n
            invariant
                n == self.entries@.len(),
                i <= n,
                entries@ == self.entries@.take(i as int),
            decreases n - i,
        {
            let (key, value) = &self.entries[i];
            entries.push((key.clone(), value.clone()));
            proof {
                assert(self.entries@.take(i + 1) =~= self.entries@.take(i as int).push(
                    self.entries@[i as int],
                ));
            }
            i = i + 1;
        }
        proof {
            assert(self.entries@.take(n as int) =~= self.entries@);
        }
        MessageContext { entries }
    }
}

impl MessageContext {
    #[verifier::type_invariant]
    spec fn well_formed(self) -> bool {
        keys_increasing(self.entries@)
    }

    /// An empty context.
    pub fn new() -> (r: MessageContext)
        ensures
            r@ == Map::<Seq<char>, ContextValue>::empty(),
    {
        let r = MessageContext { entries: Vec::new() };
        assert(r@ =~= Map::<Seq<char>, ContextValue>::empty());
        r
    }

    /// Where `key` stands among the entries: the first position whose key does
    /// not come before it, and whether that position carries it.
    fn locate(&self, key: &Vec<char>) -> (r: (usize, bool))
        ensures
            r.0 <= self.entries@.len(),
            forall|j: int| 0 <= j < r.0 ==> key_less(#[trigger] self.entries@[j].0@, key@),
            r.1 ==> r.0 < self.entries@.len() && self.entries@[r.0 as int].0@ == key@,
            !r.1 ==> forall|j: int|
                r.0 <= j < self.entries@.len() ==> key_less(key@, #[trigger] self.entries@[j].0@),
    {
        proof {
            use_type_invariant(self);
        }
        let n = self.entries.len();
        let mut i: usize = 0;
        while i < n
            invariant
                n == self.entries@.len(),
                i <= n,
                keys_increasing(self.entries@),
                forall|j: int| 0 <= j < i ==> key_less(#[trigger] self.entries@[j].0@, key@),
            decreases n - i,
        {
            let here = chars_of(self.entries[i].0.as_str());
            match compare_chars(&here, key) {
                KeyOrder::Before => {},
                KeyOrder::Same => {
                    return (i, true);
                },
                KeyOrder::After => {
                    proof {
                        assert forall|j: int| i <= j < n implies key_less(
                            key@,
                            #[trigger] self.entries@[j].0@,
                        ) by {
                            if j > i {
                                lemma_key_less_transitive(
                                    key@,
                                    self.entries@[i as int].0@,
                                    self.entries@[j].0@,
                                );
                            }
                        }
                    }
                    return (i, false);
                },
            }
            i = i + 1;
        }
        (i, false)
    }

    /// The value promoted under `key`, if any.
    pub fn get(&self, key: &str) -> (r: Option<&ContextValue>)
        ensures
            match r {
                Some(v) => self@.contains_key(key@) && self@[key@] == *v,
                None => !self@.contains_key(key@),
            },
    {
        proof {
            use_type_invariant(self);
        }
        let wanted = chars_of(key);
        let (pos, found) = self.locate(&wanted);
        if found {
            proof {
                lemma_entry_in_map(self.entries@, pos as int);
            }
            Some(&self.entries[pos].1)
        } else {
            proof {
                assert forall|i: int| 0 <= i < self.entries@.len() implies #[trigger] self.entries@[i].0@
                    != key@ by {
                    if i < pos {
                        lemma_key_less_trichotomy(self.entries@[i].0@, key@);
                    } else {
                        lemma_key_less_trichotomy(key@, self.entries@[i].0@);
                    }
                }
                lemma_absent_from_map(self.entries@, key@);
            }
            None
        }
    }

    /// The context with `value` promoted under `key`, in place of any value
    /// promoted there before.
    pub fn with_value(self, key: &str, value: ContextValue) -> (r: MessageContext)
        ensures
            r@ == self@.insert(key@, value),
    {
        proof {
            use_type_invariant(&self);
        }
        let wanted = chars_of(key);
        let (pos, found) = self.locate(&wanted);
        let MessageContext { mut entries } = self;
        let entry = (key.to_owned(), value);
        if found {
            proof {
                lemma_replace_entry(entries@, pos as int, entry);
            }
            entries.set(pos, entry);
        } else {
            proof {
                lemma_insert_entry(entries@, pos as int, entry);
            }
            entries.insert(pos, entry);
        }
        MessageContext { entries }
    }

    /// Every promoted property, as its name and its value, in the order of the
    /// names, each name once.
    pub fn iter(&self) -> (r: Vec<(&str, &ContextValue)>)
        ensures
            forall|i: int|
                0 <= i < r@.len() ==> self@.contains_key(#[trigger] r@[i].0@) && self@[r@[i].0@]
                    == *r@[i].1,
            forall|i: int, j: int|
                0 <= i < j < r@.len() ==> key_less(#[trigger] r@[i].0@, #[trigger] r@[j].0@),
            forall|k: Seq<char>|
                #[trigger] self@.contains_key(k) ==> exists|i: int| 0 <= i < r@.len() && r@[i].0@ == k,
    {
        proof {
            use_type_invariant(self);
        }
        let mut r: Vec<(&str, &ContextValue)> = Vec::new();
        let n = self.entries.len();
        let mut i: usize = 0;
        while i < n
            invariant
                n == self.entries@.len(),
                i <= n,
                r@.len() == i,
                forall|j: int|
                    0 <= j < i ==> #[trigger] r@[j].0@ == self.entries@[j].0@ && *r@[j].1
                        == self.entries@[j].1,
            decreases n - i,
        {
            let (key, value) = &self.entries[i];
            r.push((key.as_str(), value));
            i = i + 1;
        }
        proof {
            assert forall|j: int| 0 <= j < r@.len() implies self@.contains_key(#[trigger] r@[j].0@)
                && self@[r@[j].0@] == *r@[j].1 by {
                lemma_entry_in_map(self.entries@, j);
            }
            assert forall|a: int, b: int| 0 <= a < b < r@.len() implies key_less(
                #[trigger] r@[a].0@,
                #[trigger] r@[b].0@,
            ) by {
                assert(key_less(self.entries@[a].0@, self.entries@[b].0@));
            }
            assert forall|k: Seq<char>| #[trigger] self@.contains_key(k) implies exists|j: int|
                0 <= j < r@.len() && r@[j].0@ == k by {
                let j = lemma_key_has_entry(self.entries@, k);
                assert(r@[j].0@ == k);
            }
        }
        r
    }

    /// Whether a value was promoted under `key`.
    pub fn contains_key(&self, key: &str) -> (r: bool)
        ensures
            r == self@.contains_key(key@),
    {
        self.get(key).is_some()
    }
}

/// A read of a key gives back what was last promoted under it, and promoting
/// under one key leaves every other key as it was.
pub proof fn law_read_after_write(
    context: MessageContext,
    key: Seq<char>,
    value: ContextValue,
    other: Seq<char>,
)
    ensures
        context@.insert(key, value).contains_key(key),
        context@.insert(key, value)[key] == value,
        other != key ==> context@.insert(key, value).contains_key(other) == context@.contains_key(
            other,
        ),
        other != key && context@.contains_key(other) ==> context@.insert(key, value)[other]
            == context@[other],
{
}

impl Default for MessageContext {
    /// An empty context.
    fn default() -> (r: MessageContext)
        ensures
            r@ == Map::<Seq<char>, ContextValue>::empty(),
    {
        MessageContext::new()
    }
}

} // verus!
