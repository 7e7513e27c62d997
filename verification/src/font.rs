use vstd::prelude::*;

verus! {

use std::collections::HashMap;

broadcast use vstd::std_specs::hash::group_hash_axioms, vstd::utf8::char_is_scalar;

/// Glyph slot returned for a character the atlas does not carry: the
/// question mark's slot in the standard atlas.
pub const MISSING_GLYPH_INDEX: i32 = 74;

/// Bitmap-font glyph lookup: maps a character to the slot its glyph
/// occupies in the font atlas texture.  The atlas contents are given as a
/// string whose `i`-th character renders as glyph `i`.
pub struct Font {
    map: HashMap<u32, i32>,
}

impl Font {
    /// Whether the atlas carries a glyph for `c`.
    pub closed spec fn supports(self, c: char) -> bool {
        self.map@.contains_key(c as u32)
    }

    /// The atlas slot `get_index` hands out for `c`.
    pub closed spec fn glyph_slot(self, c: char) -> i32 {
        if self.map@.contains_key(c as u32) {
            self.map@[c as u32]
        } else {
            MISSING_GLYPH_INDEX
        }
    }

    /// Builds the glyph index from the atlas contents.  A character that
    /// occurs in `glyphs` more than once keeps its first slot.
    pub fn new(glyphs: &str) -> (font: Font)
        requires
            glyphs@.len() <= i32::MAX,
        ensures
            forall|c: char| #[trigger] font.supports(c) <==> glyphs@.contains(c),
            forall|c: char| #[trigger] font.supports(c) ==> {
                let slot = font.glyph_slot(c) as int;
                &&& 0 <= slot < glyphs@.len()
                &&& glyphs@[slot] == c
                &&& forall|j: int| 0 <= j < slot ==> glyphs@[j] != c
            },
            forall|c: char| !glyphs@.contains(c) ==> #[trigger] font.glyph_slot(c)
                == MISSING_GLYPH_INDEX,
    {
        let n = glyphs.unicode_len();
        let mut map: HashMap<u32, i32> = HashMap::new();
        let mut i: usize = 0;
        while i < n
            invariant
                n == glyphs@.len(),
                n <= i32::MAX,
                i <= n,
                forall|c: char| #[trigger] map@.contains_key(c as u32) <==> glyphs@.take(
                    i as int,
                ).contains(c),
                forall|c: char| #[trigger] map@.contains_key(c as u32) ==> {
                    let slot = map@[c as u32] as int;
                    &&& 0 <= slot < i
                    &&& glyphs@[slot] == c
                    &&& forall|j: int| 0 <= j < slot ==> glyphs@[j] != c
                },
            decreases n - i,
        {
            let c = glyphs.get_char(i);
            let key = c as u32;
            let ghost prior = map@;
            proof {
                assert forall|c2: char| #[trigger] (c2 as u32) == key implies c2 == c by {
                    vstd::utf8::char_u32_cast(c2, key);
                    vstd::utf8::char_u32_cast(c, key);
                }
            }
            if !map.contains_key(&key) {
                map.insert(key, i as i32);
                proof {
                    assert forall|j: int| 0 <= j < i implies glyphs@[j] != c by {
                        if glyphs@[j] == c {
                            assert(glyphs@.take(i as int)[j] == c);
                            assert(glyphs@.take(i as int).contains(c));
                        }
                    }
                    assert forall|c2: char|
                        #[trigger] map@.contains_key(c2 as u32) <==> glyphs@.take(
                            i + 1,
                        ).contains(c2) by {
                        lemma_take_succ_contains(glyphs@, i as int, c2);
                        if c2 as u32 != key {
                            assert(map@.contains_key(c2 as u32) == prior.contains_key(c2 as u32));
                        }
                    }
                }
            } else {
                proof {
                    assert forall|c2: char|
                        #[trigger] map@.contains_key(c2 as u32) <==> glyphs@.take(
                            i + 1,
                        ).contains(c2) by {
                        lemma_take_succ_contains(glyphs@, i as int, c2);
                    }
                }
            }
            i = i + 1;
        }
        let font = Font { map };
        proof {
            assert(glyphs@.take(i as int) =~= glyphs@);
            assert(forall|c: char| #[trigger] font.map@.contains_key(c as u32)
                <==> glyphs@.contains(c));
            assert(forall|c: char| #[trigger] font.map@.contains_key(c as u32) ==> {
                let slot = font.map@[c as u32] as int;
                &&& 0 <= slot < glyphs@.len()
                &&& glyphs@[slot] == c
                &&& forall|j: int| 0 <= j < slot ==> glyphs@[j] != c
            });
            lemma_atlas_facts(font, glyphs@);
        }
        font
    }

    /// Whether the atlas carries a glyph for `c`.
    pub fn supports_char(&self, c: char) -> (r: bool)
        ensures
            r == self.supports(c),
    {
        let key = c as u32;
        self.map.contains_key(&key)
    }

    /// The atlas slot to render `c` from, or `MISSING_GLYPH_INDEX` if the
    /// atlas has no glyph for it.
    pub fn get_index(&self, c: char) -> (index: i32)
        ensures
            index == self.glyph_slot(c),
            !self.supports(c) ==> index == MISSING_GLYPH_INDEX,
    {
        let key = c as u32;
        match self.map.get(&key) {
            Some(index) => *index,
            None => MISSING_GLYPH_INDEX,
        }
    }
}

/// Lifts facts about the underlying key map to `supports` and
/// `glyph_slot`.  Kept separate so the step happens in a small context.
proof fn lemma_atlas_facts(font: Font, glyphs: Seq<char>)
    requires
        forall|c: char| #[trigger] font.map@.contains_key(c as u32) <==> glyphs.contains(c),
        forall|c: char| #[trigger] font.map@.contains_key(c as u32) ==> {
            let slot = font.map@[c as u32] as int;
            &&& 0 <= slot < glyphs.len()
            &&& glyphs[slot] == c
            &&& forall|j: int| 0 <= j < slot ==> glyphs[j] != c
        },
    ensures
        forall|c: char| #[trigger] font.supports(c) <==> glyphs.contains(c),
        forall|c: char| #[trigger] font.supports(c) ==> {
            let slot = font.glyph_slot(c) as int;
            &&& 0 <= slot < glyphs.len()
            &&& glyphs[slot] == c
            &&& forall|j: int| 0 <= j < slot ==> glyphs[j] != c
        },
        forall|c: char| !glyphs.contains(c) ==> #[trigger] font.glyph_slot(c)
            == MISSING_GLYPH_INDEX,
{
    assert forall|c: char| #[trigger] font.supports(c) <==> glyphs.contains(c) by {
        lemma_atlas_facts_at(font, glyphs, c);
    }
    assert forall|c: char| #[trigger] font.supports(c) implies {
        let slot = font.glyph_slot(c) as int;
        &&& 0 <= slot < glyphs.len()
        &&& glyphs[slot] == c
        &&& forall|j: int| 0 <= j < slot ==> glyphs[j] != c
    } by {
        lemma_atlas_facts_at(font, glyphs, c);
    }
    assert forall|c: char| !glyphs.contains(c) implies #[trigger] font.glyph_slot(c)
        == MISSING_GLYPH_INDEX by {
        lemma_atlas_facts_at(font, glyphs, c);
    }
}

/// The statement of [`lemma_atlas_facts`] for one character.
proof fn lemma_atlas_facts_at(font: Font, glyphs: Seq<char>, c: char)
    requires
        forall|c2: char| #[trigger] font.map@.contains_key(c2 as u32) <==> glyphs.contains(c2),
        forall|c2: char| #[trigger] font.map@.contains_key(c2 as u32) ==> {
            let slot = font.map@[c2 as u32] as int;
            &&& 0 <= slot < glyphs.len()
            &&& glyphs[slot] == c2
            &&& forall|j: int| 0 <= j < slot ==> glyphs[j] != c2
        },
    ensures
        font.supports(c) <==> glyphs.contains(c),
        font.supports(c) ==> {
            let slot = font.glyph_slot(c) as int;
            &&& 0 <= slot < glyphs.len()
            &&& glyphs[slot] == c
            &&& forall|j: int| 0 <= j < slot ==> glyphs[j] != c
        },
        !glyphs.contains(c) ==> font.glyph_slot(c) == MISSING_GLYPH_INDEX,
{
}

/// Extending a prefix of `s` by the character `s[i]` extends what it
/// contains by exactly that character.
proof fn lemma_take_succ_contains(s: Seq<char>, i: int, c: char)
    requires
        0 <= i < s.len(),
    ensures
        s.take(i + 1).contains(c) <==> (s.take(i).contains(c) || s[i] == c),
{
    let shorter = s.take(i);
    let longer = s.take(i + 1);
    if shorter.contains(c) {
        let j = choose|j: int| 0 <= j < shorter.len() && shorter[j] == c;
        assert(longer[j] == c);
    }
    if s[i] == c {
        assert(longer[i] == c);
    }
    if longer.contains(c) {
        let j = choose|j: int| 0 <= j < longer.len() && longer[j] == c;
        if j < i {
            assert(shorter[j] == c);
        }
    }
}

} // verus!
