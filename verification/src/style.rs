//! A small themed style sheet, queried by hierarchical path.
//!
//! The sheet owns its default-value policy: a color query that finds no
//! explicit color answers with the sheet's fallback color, and a number
//! query answers with the caller's default. Queries therefore always yield
//! a usable value and never fail.

use vstd::prelude::*;
use crate::color::Lcha;
use crate::color::UnitRatio;
use crate::path::Path;

verus! {

/// A value stored in a style sheet: a color, or a configuration number.
#[derive(Clone, Copy, Debug)]
pub enum StyleValue {
    Color(Lcha),
    Number(UnitRatio),
}

/// A well-formed style value holds only unit-interval numbers.
pub open spec fn value_wf(v: StyleValue) -> bool {
    match v {
        StyleValue::Number(n) => n.wf(),
        StyleValue::Color(_) => true,
    }
}

/// The first value stored under `key`, searching the entries front to back.
pub open spec fn lookup(entries: Seq<(Path, StyleValue)>, key: Seq<Seq<char>>) -> Option<
    StyleValue,
>
    decreases entries.len(),
{
    if entries.len() == 0 {
        None
    } else if entries[0].0@ == key {
        Some(entries[0].1)
    } else {
        lookup(entries.drop_first(), key)
    }
}

/// If the first `i` entries do not hold `key`, the search outcome is
/// decided by the remaining entries alone.
proof fn lemma_lookup_skip(entries: Seq<(Path, StyleValue)>, key: Seq<Seq<char>>, i: int)
    requires
        0 <= i <= entries.len(),
        forall|j: int| 0 <= j < i ==> (#[trigger] entries[j].0)@ != key,
    ensures
        lookup(entries, key) == lookup(entries.skip(i), key),
    decreases i,
{
    if i > 0 {
        lemma_lookup_skip(entries.drop_first(), key, i - 1);
        assert(entries.drop_first().skip(i - 1) =~= entries.skip(i));
        assert(entries.skip(0) =~= entries);
    } else {
        assert(entries.skip(0) =~= entries);
    }
}

/// A successful search among well-formed entries yields a well-formed value.
proof fn lemma_lookup_wf(entries: Seq<(Path, StyleValue)>, key: Seq<Seq<char>>)
    requires
        forall|i: int| 0 <= i < entries.len() ==> value_wf(#[trigger] entries[i].1),
    ensures
        match lookup(entries, key) {
            Some(v) => value_wf(v),
            None => true,
        },
    decreases entries.len(),
{
    if entries.len() > 0 && entries[0].0@ != key {
        assert(forall|i: int|
            0 <= i < entries.drop_first().len() ==> value_wf(
                #[trigger] entries.drop_first()[i].1,
            ));
        lemma_lookup_wf(entries.drop_first(), key);
    }
}

/// A themed style sheet: keyed entries in front-to-back priority order,
/// and a fallback color of the sheet's own.
#[derive(Debug)]
pub struct StyleSheet {
    pub entries: Vec<(Path, StyleValue)>,
    pub fallback_color: Lcha,
}

impl StyleSheet {
    /// Every number stored in the sheet lies in the unit interval.
    pub open spec fn wf(self) -> bool {
        forall|i: int| 0 <= i < self.entries@.len() ==> value_wf(#[trigger] self.entries@[i].1)
    }

    /// The value stored under `key`, if any.
    pub open spec fn spec_get(self, key: Seq<Seq<char>>) -> Option<StyleValue> {
        lookup(self.entries@, key)
    }

    /// The number stored under `key`, or `default` where none is stored.
    pub open spec fn spec_number_or(self, key: Seq<Seq<char>>, default: UnitRatio) -> UnitRatio {
        match self.spec_get(key) {
            Some(StyleValue::Number(n)) => n,
            _ => default,
        }
    }

    /// The color stored under `key`, or the sheet's fallback color.
    pub open spec fn spec_color(self, key: Seq<Seq<char>>) -> Lcha {
        match self.spec_get(key) {
            Some(StyleValue::Color(c)) => c,
            _ => self.fallback_color,
        }
    }

    /// An empty sheet that answers every color query with `fallback_color`.
    pub fn new(fallback_color: Lcha) -> (r: StyleSheet)
        ensures
            r.wf(),
            r.fallback_color == fallback_color,
            forall|k: Seq<Seq<char>>| r.spec_get(k) == None::<StyleValue>,
    {
        StyleSheet { entries: Vec::new(), fallback_color }
    }

    /// Stores `value` under `path`, shadowing anything stored there before;
    /// every other key keeps its former answer.
    pub fn set(&mut self, path: Path, value: StyleValue)
        requires
            old(self).wf(),
            value_wf(value),
        ensures
            final(self).wf(),
            final(self).fallback_color == old(self).fallback_color,
            final(self).spec_get(path@) == Some(value),
            forall|k: Seq<Seq<char>>|
                k != path@ ==> final(self).spec_get(k) == old(self).spec_get(k),
    {
        let ghost old_entries = self.entries@;
        let ghost key = path@;
        self.entries.insert(0, (path, value));
        proof {
            assert(self.entries@.drop_first() =~= old_entries);
            assert(self.entries@[0].1 == value);
            assert forall|i: int| 0 <= i < self.entries@.len() implies value_wf(
                #[trigger] self.entries@[i].1,
            ) by {
                if i > 0 {
                    assert(self.entries@[i] == old_entries[i - 1]);
                }
            }
        }
    }

    /// Looks the value stored under `path` up, front to back.
    pub fn get(&self, path: &Path) -> (r: Option<StyleValue>)
        ensures
            r == self.spec_get(path@),
    {
        let mut i: usize = 0;
        while i < self.entries.len()
            invariant
                i <= self.entries@.len(),
                forall|j: int| 0 <= j < i ==> (#[trigger] self.entries@[j].0)@ != path@,
            decreases self.entries@.len() - i,
        {
            let entry = &self.entries[i];
            if entry.0 == *path {
                proof {
                    lemma_lookup_skip(self.entries@, path@, i as int);
                    assert(self.entries@.skip(i as int)[0] == self.entries@[i as int]);
                }
                return Some(entry.1);
            }
            i += 1;
        }
        proof {
            lemma_lookup_skip(self.entries@, path@, i as int);
            assert(self.entries@.skip(i as int) =~= Seq::empty());
        }
        None
    }

    /// The number stored under `path`, or `default` where none is stored.
    pub fn get_number_or(&self, path: &Path, default: UnitRatio) -> (r: UnitRatio)
        ensures
            r == self.spec_number_or(path@, default),
    {
        match self.get(path) {
            Some(StyleValue::Number(n)) => n,
            _ => default,
        }
    }

    /// The color stored under `path`, or the sheet's fallback color.
    pub fn get_color(&self, path: &Path) -> (r: Lcha)
        ensures
            r == self.spec_color(path@),
    {
        match self.get(path) {
            Some(StyleValue::Color(c)) => c,
            _ => self.fallback_color,
        }
    }
}

/// On a well-formed sheet a number query with a well-formed default yields
/// a unit-interval number.
pub proof fn lemma_number_or_wf(sheet: StyleSheet, key: Seq<Seq<char>>, default: UnitRatio)
    requires
        sheet.wf(),
        default.wf(),
    ensures
        sheet.spec_number_or(key, default).wf(),
{
    lemma_lookup_wf(sheet.entries@, key);
}

} // verus!
