//! The key/value block of a discovery announcement.

use vstd::prelude::*;
use crate::text::chars_of;
use crate::text::same_chars;
use crate::text::text_of;
use crate::text::read_unsigned;
use crate::text::unsigned_reading;

verus! {

/// The map that a list of key/value pairs stands for: a pair that comes later
/// replaces an earlier one with the same key.
pub open spec fn pairs_map(pairs: Seq<(Vec<char>, Vec<char>)>) -> Map<Seq<char>, Seq<char>>
    decreases pairs.len(),
{
    if pairs.len() == 0 {
        Map::empty()
    } else {
        pairs_map(pairs.drop_last()).insert(pairs.last().0@, pairs.last().1@)
    }
}

/// A map from header names to header values. Names are case-sensitive.
pub struct Headers {
    pub entries: Vec<(Vec<char>, Vec<char>)>,
}

impl View for Headers {
    type V = Map<Seq<char>, Seq<char>>;

    open spec fn view(&self) -> Map<Seq<char>, Seq<char>> {
        pairs_map(self.entries@)
    }
}

/// The unsigned number of at most `max` that stands under `key`; nothing
/// where the key is missing or its value is no such number.
pub open spec fn number_under(map: Map<Seq<char>, Seq<char>>, key: Seq<char>, max: nat) -> Option<
    nat,
> {
    if map.contains_key(key) {
        unsigned_reading(map[key], max)
    } else {
        None
    }
}

impl Headers {
    /// A map without entries.
    pub fn new() -> (headers: Headers)
        ensures
            headers@ == Map::<Seq<char>, Seq<char>>::empty(),
    {
        Headers { entries: Vec::new() }
    }

    /// Puts `value` under `key`, in place of what stood there.
    pub fn insert(&mut self, key: &str, value: &str)
        ensures
            final(self)@ == old(self)@.insert(key@, value@),
    {
        self.put(chars_of(key), chars_of(value));
    }

    /// Puts `value` under `key`, in place of what stood there.
    pub fn put(&mut self, key: Vec<char>, value: Vec<char>)
        ensures
            final(self)@ == old(self)@.insert(key@, value@),
    {
        self.entries.push((key, value));
        assert(self.entries@.drop_last() =~= old(self).entries@);
    }

    /// The value under `key`.
    pub fn lookup(&self, key: &[char]) -> (value: Option<&Vec<char>>)
        ensures
            match value {
                Some(v) => self@.contains_key(key@) && v@ == self@[key@],
                None => !self@.contains_key(key@),
            },
    {
        let mut i: usize = self.entries.len();
        assert(self.entries@.subrange(0, i as int) =~= self.entries@);
        while i > 0
            invariant
                i <= self.entries@.len(),
                pairs_map(self.entries@.subrange(0, i as int)).contains_key(key@)
                    == self@.contains_key(key@),
                self@.contains_key(key@) ==> pairs_map(self.entries@.subrange(0, i as int))[key@]
                    == self@[key@],
            decreases i,
        {
            let ghost upto = self.entries@.subrange(0, i as int);
            assert(upto.drop_last() =~= self.entries@.subrange(0, i - 1));
            i -= 1;
            if same_chars(self.entries[i].0.as_slice(), key) {
                return Some(&self.entries[i].1);
            }
        }
        None
    }

    /// The value under `key`, as a string.
    pub fn get(&self, key: &str) -> (value: Option<String>)
        ensures
            match value {
                Some(v) => self@.contains_key(key@) && v@ == self@[key@],
                None => !self@.contains_key(key@),
            },
    {
        let wanted = chars_of(key);
        match self.lookup(wanted.as_slice()) {
            Some(v) => Some(text_of(v.as_slice())),
            None => None,
        }
    }

    /// The unsigned number of at most `max` under `key`.
    pub fn number(&self, key: &str, max: u64) -> (value: Option<u64>)
        ensures
            match value {
                Some(v) => number_under(self@, key@, max as nat) == Some(v as nat),
                None => number_under(self@, key@, max as nat) is None,
            },
    {
        let wanted = chars_of(key);
        match self.lookup(wanted.as_slice()) {
            Some(v) => read_unsigned(v.as_slice(), max),
            None => None,
        }
    }
}

} // verus!
