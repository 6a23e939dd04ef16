use vstd::prelude::*;

verus! {

/// What a table of `(key, value)` entries maps `k` to: the value of the last
/// entry with that key, so that a later entry replaces an earlier one.
pub open spec fn table_lookup(t: Seq<(String, String)>, k: Seq<char>) -> Option<Seq<char>>
    decreases t.len(),
{
    if t.len() == 0 {
        None
    } else if t.last().0@ == k {
        Some(t.last().1@)
    } else {
        table_lookup(t.drop_last(), k)
    }
}

/// Looks `k` up in a table, searching from the most recent entry.
fn find<'a>(t: &'a Vec<(String, String)>, k: &String) -> (r: Option<&'a String>)
    ensures
        r is None <==> table_lookup(t@, k@) is None,
        r matches Some(v) ==> table_lookup(t@, k@) == Some(v@),
{
    let mut i: usize = t.len();
    proof {
        assert(t@.subrange(0, i as int) =~= t@);
    }
    while i > 0
        invariant
            i <= t.len(),
            table_lookup(t@, k@) == table_lookup(t@.subrange(0, i as int), k@),
        decreases i,
    {
        proof {
            assert(t@.subrange(0, i as int).drop_last() =~= t@.subrange(0, i - 1));
        }
        let e = &t[i - 1];
        if e.0 == *k {
            return Some(&e.1);
        }
        i = i - 1;
    }
    proof {
        assert(t@.subrange(0, 0) =~= Seq::<(String, String)>::empty());
    }
    None
}

/// A keyboard layout: the tables that drive composition. It is built once and
/// then only read.
pub struct Layout {
    mappings: Vec<(String, String)>,
    special_rules: Vec<(String, String)>,
    consonants: Vec<String>,
    matra_map: Vec<(String, String)>,
}

impl Layout {
    /// The output text of a case-sensitive key symbol.
    pub closed spec fn mapping(&self, k: Seq<char>) -> Option<Seq<char>> {
        table_lookup(self.mappings@, k)
    }

    /// The text a special-rule symbol types as it is.
    pub closed spec fn special_rule(&self, k: Seq<char>) -> Option<Seq<char>> {
        table_lookup(self.special_rules@, k)
    }

    /// Whether an output text can take a dependent vowel sign.
    pub closed spec fn is_consonant(&self, s: Seq<char>) -> bool {
        exists|i: int| 0 <= i < self.consonants@.len() && #[trigger] self.consonants@[i]@ == s
    }

    /// The dependent vowel sign that replaces a vowel's output text after a consonant.
    pub closed spec fn matra(&self, s: Seq<char>) -> Option<Seq<char>> {
        table_lookup(self.matra_map@, s)
    }

    /// A layout with empty tables.
    pub fn new() -> (r: Layout)
        ensures
            forall|k: Seq<char>| r.mapping(k) is None,
            forall|k: Seq<char>| r.special_rule(k) is None,
            forall|k: Seq<char>| !r.is_consonant(k),
            forall|k: Seq<char>| r.matra(k) is None,
    {
        Layout {
            mappings: Vec::new(),
            special_rules: Vec::new(),
            consonants: Vec::new(),
            matra_map: Vec::new(),
        }
    }

    /// Maps `key` to `value`, replacing what `key` mapped to before.
    pub fn set_mapping(&mut self, key: String, value: String)
        ensures
            forall|k: Seq<char>|
                final(self).mapping(k) == if k == key@ {
                    Some(value@)
                } else {
                    old(self).mapping(k)
                },
            forall|k: Seq<char>| final(self).special_rule(k) == old(self).special_rule(k),
            forall|k: Seq<char>| final(self).is_consonant(k) == old(self).is_consonant(k),
            forall|k: Seq<char>| final(self).matra(k) == old(self).matra(k),
    {
        self.mappings.push((key, value));
        proof {
            assert(self.mappings@.drop_last() =~= old(self).mappings@);
            assert(self.special_rules@ == old(self).special_rules@);
            assert(self.matra_map@ == old(self).matra_map@);
            assert(self.consonants@ == old(self).consonants@);
        }
    }

    /// Makes `key` a special rule that types `value`, replacing an earlier rule.
    pub fn set_special_rule(&mut self, key: String, value: String)
        ensures
            forall|k: Seq<char>|
                final(self).special_rule(k) == if k == key@ {
                    Some(value@)
                } else {
                    old(self).special_rule(k)
                },
            forall|k: Seq<char>| final(self).mapping(k) == old(self).mapping(k),
            forall|k: Seq<char>| final(self).is_consonant(k) == old(self).is_consonant(k),
            forall|k: Seq<char>| final(self).matra(k) == old(self).matra(k),
    {
        self.special_rules.push((key, value));
        proof {
            assert(self.special_rules@.drop_last() =~= old(self).special_rules@);
            assert(self.mappings@ == old(self).mappings@);
            assert(self.matra_map@ == old(self).matra_map@);
            assert(self.consonants@ == old(self).consonants@);
        }
    }

    /// Adds `text` to the consonants.
    pub fn add_consonant(&mut self, text: String)
        ensures
            forall|k: Seq<char>|
                final(self).is_consonant(k) == (k == text@ || old(self).is_consonant(k)),
            forall|k: Seq<char>| final(self).mapping(k) == old(self).mapping(k),
            forall|k: Seq<char>| final(self).special_rule(k) == old(self).special_rule(k),
            forall|k: Seq<char>| final(self).matra(k) == old(self).matra(k),
    {
        let ghost before = self.consonants@;
        self.consonants.push(text);
        proof {
            assert forall|k: Seq<char>|
                self.is_consonant(k) == (k == text@ || old(self).is_consonant(k)) by {
                assert(self.consonants@.drop_last() =~= before);
                if old(self).is_consonant(k) {
                    let i = choose|i: int|
                        0 <= i < before.len() && #[trigger] before[i]@ == k;
                    assert(self.consonants@[i]@ == k);
                }
                if k == text@ {
                    assert(self.consonants@[before.len() as int]@ == k);
                }
                if self.is_consonant(k) {
                    let i = choose|i: int|
                        0 <= i < self.consonants@.len() && #[trigger] self.consonants@[i]@ == k;
                    if i < before.len() {
                        assert(before[i]@ == k);
                    }
                }
            }
        }
    }

    /// Makes the vowel text `vowel` turn into `sign` after a consonant.
    pub fn set_matra(&mut self, vowel: String, sign: String)
        ensures
            forall|k: Seq<char>|
                final(self).matra(k) == if k == vowel@ {
                    Some(sign@)
                } else {
                    old(self).matra(k)
                },
            forall|k: Seq<char>| final(self).mapping(k) == old(self).mapping(k),
            forall|k: Seq<char>| final(self).special_rule(k) == old(self).special_rule(k),
            forall|k: Seq<char>| final(self).is_consonant(k) == old(self).is_consonant(k),
    {
        self.matra_map.push((vowel, sign));
        proof {
            assert(self.matra_map@.drop_last() =~= old(self).matra_map@);
            assert(self.mappings@ == old(self).mappings@);
            assert(self.special_rules@ == old(self).special_rules@);
            assert(self.consonants@ == old(self).consonants@);
        }
    }

    /// The output text of `key`, if it has one.
    pub fn get_mapping(&self, key: &String) -> (r: Option<&String>)
        ensures
            r is None <==> self.mapping(key@) is None,
            r matches Some(v) ==> self.mapping(key@) == Some(v@),
    {
        find(&self.mappings, key)
    }

    /// The special rule of `key`, if it has one.
    pub fn get_special_rule(&self, key: &String) -> (r: Option<&String>)
        ensures
            r is None <==> self.special_rule(key@) is None,
            r matches Some(v) ==> self.special_rule(key@) == Some(v@),
    {
        find(&self.special_rules, key)
    }

    /// The vowel sign for the output text `vowel`, if it has one.
    pub fn get_matra(&self, vowel: &String) -> (r: Option<&String>)
        ensures
            r is None <==> self.matra(vowel@) is None,
            r matches Some(v) ==> self.matra(vowel@) == Some(v@),
    {
        find(&self.matra_map, vowel)
    }

    /// Whether `text` is a consonant.
    pub fn contains_consonant(&self, text: &String) -> (r: bool)
        ensures
            r == self.is_consonant(text@),
    {
        let mut i: usize = 0;
        while i < self.consonants.len()
            invariant
                i <= self.consonants@.len(),
                forall|j: int| 0 <= j < i ==> #[trigger] self.consonants@[j]@ != text@,
            decreases self.consonants@.len() - i,
        {
            if self.consonants[i] == *text {
                return true;
            }
            i = i + 1;
        }
        false
    }
}

} // verus!
