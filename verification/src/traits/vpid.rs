//! VPID (virtual processor identifier) allocation with recycling.
//!
//! VPIDs tag TLB entries per VM. VPID 0 belongs to VMX root operation and is
//! never handed out (Intel SDM Vol 3C, Section 30.1). A bitmap of 1024
//! 64-bit words records which of the 65536 VPIDs are in use: bit `v % 64` of
//! word `v / 64` for VPID `v`. The allocator owns its bitmap and the hint of
//! where to start the next search.
use vstd::prelude::*;
use vstd::std_specs::bits::u64_trailing_zeros;

verus! {

/// Words of the VPID bitmap.
pub const BITMAP_WORDS: usize = 1024;

/// Whether bit `b` of `w` is set.
pub open spec fn spec_bit(w: u64, b: u64) -> bool {
    (w >> b) & 1 == 1
}

/// A word as the search sees it: in word 0, VPID 0 counts as in use.
pub open spec fn spec_eff_word(words: Seq<u64>, w: int) -> u64 {
    if w == 0 {
        words[0] | 1
    } else {
        words[w]
    }
}

/// The word index visited `k` steps after `start` (wrapping).
pub open spec fn spec_search_word(start: int, k: int) -> int {
    (start + k) % (BITMAP_WORDS as int)
}

/// The number of steps after `start` at which word `w` is visited.
pub open spec fn spec_search_step(start: int, w: int) -> int {
    (w - start + BITMAP_WORDS) % (BITMAP_WORDS as int)
}

/// The words after allocating VPID `v`, with VPID 0 first marked as in use
/// when `mark0`.
pub open spec fn spec_after_alloc(words: Seq<u64>, v: u16, mark0: bool) -> Seq<u64> {
    let w0 = if mark0 {
        words.update(0, words[0] | 1)
    } else {
        words
    };
    w0.update((v / 64) as int, w0[(v / 64) as int] | (1u64 << ((v % 64) as u64)))
}

/// Bitmap of in-use VPIDs.
pub struct VpidBitmap {
    words: Vec<u64>,
}

impl VpidBitmap {
    #[verifier::type_invariant]
    spec fn inv(self) -> bool {
        self.words@.len() == BITMAP_WORDS
    }

    /// The bitmap words.
    pub closed spec fn words(&self) -> Seq<u64> {
        self.words@
    }

    /// Word `i` of the bitmap.
    pub fn word(&self, i: usize) -> (r: u64)
        requires
            i < BITMAP_WORDS,
        ensures
            self.words().len() == BITMAP_WORDS,
            r == self.words()[i as int],
    {
        proof {
            use_type_invariant(self);
        }
        self.words[i]
    }

    /// Whether `vpid` is in use.
    pub open spec fn in_use(&self, vpid: u16) -> bool {
        spec_bit(self.words()[(vpid / 64) as int], (vpid % 64) as u64)
    }

    /// No VPID in use.
    pub fn new() -> (r: Self)
        ensures
            r.words() == Seq::new(BITMAP_WORDS as nat, |i: int| 0u64),
    {
        let mut words: Vec<u64> = Vec::new();
        let mut i: usize = 0;
        while i < BITMAP_WORDS
            invariant
                i <= BITMAP_WORDS,
                words@ == Seq::new(i as nat, |j: int| 0u64),
            decreases BITMAP_WORDS - i,
        {
            words.push(0);
            i += 1;
            assert(words@ =~= Seq::new(i as nat, |j: int| 0u64));
        }
        VpidBitmap { words }
    }

    /// Mark `vpid` in use; returns whether it was free.
    fn try_allocate(&mut self, vpid: u16) -> (r: bool)
        ensures
            r == !old(self).in_use(vpid),
            final(self).words() == old(self).words().update(
                (vpid / 64) as int,
                old(self).words()[(vpid / 64) as int] | (1u64 << ((vpid % 64) as u64)),
            ),
    {
        proof {
            use_type_invariant(&*self);
        }
        let word_idx = (vpid / 64) as usize;
        let bit_idx = (vpid % 64) as u64;
        let mask = 1u64 << bit_idx;
        let old_word = self.words[word_idx];
        self.words[word_idx] = old_word | mask;
        assert((old_word & mask == 0) == !spec_bit(old_word, bit_idx)) by (bit_vector)
            requires
                mask == 1u64 << bit_idx,
                bit_idx < 64,
        ;
        (old_word & mask) == 0
    }

    /// Mark `vpid` free (never VPID 0).
    pub fn deallocate(&mut self, vpid: u16)
        ensures
            vpid == 0 ==> final(self).words() == old(self).words(),
            vpid != 0 ==> final(self).words() == old(self).words().update(
                (vpid / 64) as int,
                old(self).words()[(vpid / 64) as int] & !(1u64 << ((vpid % 64) as u64)),
            ),
    {
        proof {
            use_type_invariant(&*self);
        }
        if vpid == 0 {
            return ;
        }
        let word_idx = (vpid / 64) as usize;
        let bit_idx = (vpid % 64) as u64;
        let mask = 1u64 << bit_idx;
        let w = self.words[word_idx];
        self.words[word_idx] = w & !mask;
    }

    /// Allocate the lowest free VPID of word `word_idx` (marking VPID 0 in
    /// use when searching word 0); `None` when the word is full.
    fn try_allocate_in_word(&mut self, word_idx: usize) -> (r: Option<u16>)
        requires
            word_idx < BITMAP_WORDS,
        ensures
            ({
                let eff = spec_eff_word(old(self).words(), word_idx as int);
                let mark0 = word_idx == 0;
                if eff == u64::MAX {
                    &&& r is None
                    &&& final(self).words() == if mark0 {
                        old(self).words().update(0, old(self).words()[0] | 1)
                    } else {
                        old(self).words()
                    }
                } else {
                    &&& r matches Some(v) && v / 64 == word_idx && (v % 64) as u32
                        == u64_trailing_zeros(!eff) && v != 0
                    &&& final(self).words() == spec_after_alloc(old(self).words(), r->0, mark0)
                }
            }),
    {
        proof {
            use_type_invariant(&*self);
        }
        if word_idx == 0 {
            let w0 = self.words[0];
            self.words[0] = w0 | 1;
        }
        let word = self.words[word_idx];
        if word == u64::MAX {
            return None;
        }
        let inv = !word;
        let bit_idx = inv.trailing_zeros();
        proof {
            vstd::std_specs::bits::axiom_u64_trailing_zeros(inv);
            assert(inv != 0) by (bit_vector)
                requires
                    inv == !word,
                    word != u64::MAX,
            ;
        }
        let vpid = (word_idx as u16) * 64 + (bit_idx as u16);
        proof {
            if word_idx == 0 {
                let o = old(self).words@[0];
                assert(word == o | 1);
                assert(word & 1 == 1) by (bit_vector)
                    requires
                        word == o | 1,
                ;
                assert((inv >> 0u64) & 1 == 0) by (bit_vector)
                    requires
                        inv == !word,
                        word & 1 == 1,
                ;
                assert(bit_idx != 0);
            }
        }
        let ghost before = self.words@;
        let ok = self.try_allocate(vpid);
        Some(vpid)
    }

    /// Allocate a free VPID, searching word by word from the word of `hint`
    /// to the end and then from the start; `None` when every VPID is in use.
    fn allocate_any(&mut self, hint: u16) -> (r: Option<u16>)
        ensures
            ({
                let start = (hint / 64) as int;
                let old_words = old(self).words();
                match r {
                    None => {
                        &&& forall|w: int|
                            0 <= w < BITMAP_WORDS ==> #[trigger] spec_eff_word(old_words, w)
                                == u64::MAX
                        &&& final(self).words() == old_words.update(0, old_words[0] | 1)
                    },
                    Some(v) => {
                        let w = (v / 64) as int;
                        let k = spec_search_step(start, w);
                        &&& v != 0
                        &&& spec_eff_word(old_words, w) != u64::MAX
                        &&& (v % 64) as u32 == u64_trailing_zeros(!spec_eff_word(old_words, w))
                        &&& forall|j: int|
                            0 <= j < k ==> #[trigger] spec_eff_word(
                                old_words,
                                spec_search_word(start, j),
                            ) == u64::MAX
                        &&& final(self).words() == spec_after_alloc(
                            old_words,
                            v,
                            start == 0 || w < start,
                        )
                    },
                }
            }),
    {
        proof {
            use_type_invariant(&*self);
        }
        let start_word = (hint / 64) as usize;
        let mut k: usize = 0;
        while k < BITMAP_WORDS
            invariant
                k <= BITMAP_WORDS,
                start_word < BITMAP_WORDS,
                old(self).words().len() == BITMAP_WORDS,
                start_word == (hint / 64) as int,
                self.words@.len() == BITMAP_WORDS,
                forall|j: int|
                    0 <= j < k ==> #[trigger] spec_eff_word(
                        old(self).words(),
                        spec_search_word(start_word as int, j),
                    ) == u64::MAX,
                self.words@ == if k > 0 && (start_word == 0 || k > BITMAP_WORDS - start_word) {
                    old(self).words().update(0, old(self).words()[0] | 1)
                } else {
                    old(self).words()
                },
            decreases BITMAP_WORDS - k,
        {
            let word_idx = if start_word + k < BITMAP_WORDS {
                start_word + k
            } else {
                start_word + k - BITMAP_WORDS
            };
            assert(word_idx == spec_search_word(start_word as int, k as int));
            let ghost before = self.words@;
            proof {
                let o = old(self).words()[0];
                lemma_word_bits(o, 0);
                assert(spec_eff_word(before, word_idx as int) == spec_eff_word(
                    old(self).words(),
                    word_idx as int,
                ));
            }
            match self.try_allocate_in_word(word_idx) {
                Some(v) => {
                    proof {
                        assert(spec_search_step(start_word as int, word_idx as int) == k);
                    }
                    return Some(v);
                },
                None => {},
            }
            k += 1;
        }
        proof {
            assert forall|w: int| 0 <= w < BITMAP_WORDS implies #[trigger] spec_eff_word(
                old(self).words(),
                w,
            ) == u64::MAX by {
                let j = spec_search_step(start_word as int, w);
                assert(spec_search_word(start_word as int, j) == w);
            }
        }
        None
    }

    /// Everything free except VPID 0.
    fn reset(&mut self)
        ensures
            final(self).words() == Seq::new(BITMAP_WORDS as nat, |i: int| if i == 0 { 1u64 } else { 0u64 }),
    {
        proof {
            use_type_invariant(&*self);
        }
        let mut i: usize = 0;
        while i < BITMAP_WORDS
            invariant
                i <= BITMAP_WORDS,
                self.words@.len() == BITMAP_WORDS,
                forall|j: int| 0 <= j < i ==> self.words@[j] == 0,
            decreases BITMAP_WORDS - i,
        {
            self.words[i] = 0;
            i += 1;
        }
        self.words[0] = 1;
        assert(self.words@ =~= Seq::new(BITMAP_WORDS as nat, |i: int| if i == 0 { 1u64 } else { 0u64 }));
    }
}

/// Number of set bits among the low `n` bits of `w`.
pub open spec fn spec_popcount(w: u64, n: nat) -> nat
    decreases n,
{
    if n == 0 {
        0
    } else {
        spec_popcount(w, (n - 1) as nat) + if spec_bit(w, (n - 1) as u64) {
            1nat
        } else {
            0nat
        }
    }
}

/// Number of set bits in the first `n` words.
pub open spec fn spec_count_bits(words: Seq<u64>, n: nat) -> nat
    decreases n,
{
    if n == 0 {
        0
    } else {
        spec_count_bits(words, (n - 1) as nat) + spec_popcount(words[n - 1], 64)
    }
}

proof fn lemma_popcount_bound(w: u64, n: nat)
    ensures
        spec_popcount(w, n) <= n,
    decreases n,
{
    if n > 0 {
        lemma_popcount_bound(w, (n - 1) as nat);
    }
}

proof fn lemma_count_bound(words: Seq<u64>, n: nat)
    ensures
        spec_count_bits(words, n) <= 64 * n,
    decreases n,
{
    if n > 0 {
        lemma_count_bound(words, (n - 1) as nat);
        lemma_popcount_bound(words[n - 1], 64);
    }
}

/// Bit facts about a bitmap word `o` and bit `c` used by the search.
proof fn lemma_word_bits(o: u64, c: u64)
    by (bit_vector)
    ensures
        c != 0 && c < 64 ==> ((o | 1) >> c) & 1 == (o >> c) & 1,
        ((o | 1) >> 0u64) & 1 == 1,
        (o >> 0u64) & 1 == 1 ==> o | 1 == o,
        (o | 1) | 1 == o | 1,
        c < 64 ==> (0xFFFF_FFFF_FFFF_FFFFu64 >> c) & 1 == 1,
        c < 64 ==> (0u64 >> c) & 1 == 0,
        c < 64 ==> ((1u64 >> c) & 1 == 1 <==> c == 0),
{
}

/// Setting bit `b` of `w` sets it and leaves the other bits alone.
proof fn lemma_set_bit(w: u64, b: u64, c: u64)
    requires
        b < 64,
        c < 64,
    ensures
        spec_bit(w | (1u64 << b), b),
        c != b ==> spec_bit(w | (1u64 << b), c) == spec_bit(w, c),
{
    assert(((w | (1u64 << b)) >> b) & 1 == 1) by (bit_vector)
        requires
            b < 64,
    ;
    assert(c != b ==> ((w | (1u64 << b)) >> c) & 1 == (w >> c) & 1) by (bit_vector)
        requires
            b < 64,
            c < 64,
    ;
}

/// Clearing bit `b` of `w` clears it and leaves the other bits alone.
proof fn lemma_clear_bit(w: u64, b: u64, c: u64)
    requires
        b < 64,
        c < 64,
    ensures
        !spec_bit(w & !(1u64 << b), b),
        c != b ==> spec_bit(w & !(1u64 << b), c) == spec_bit(w, c),
{
    assert(((w & !(1u64 << b)) >> b) & 1 == 0) by (bit_vector)
        requires
            b < 64,
    ;
    assert(c != b ==> ((w & !(1u64 << b)) >> c) & 1 == (w >> c) & 1) by (bit_vector)
        requires
            b < 64,
            c < 64,
    ;
}

/// The VPID allocator: the bitmap and the search hint.
pub struct VpidAllocator {
    /// In-use VPIDs.
    pub bitmap: VpidBitmap,
    /// Where the next search starts.
    pub hint: u16,
}

impl VpidAllocator {
    /// Every VPID free, search from 1.
    pub fn new() -> (r: Self)
        ensures
            forall|v: u16| !#[trigger] r.bitmap.in_use(v),
            r.hint == 1,
            r.bitmap.words().len() == BITMAP_WORDS,
    {
        let bitmap = VpidBitmap::new();
        proof {
            assert forall|v: u16| !#[trigger] bitmap.in_use(v) by {
                let b = (v % 64) as u64;
                lemma_word_bits(0, b);
            }
        }
        VpidAllocator { bitmap, hint: 1 }
    }
}

/// Whether some VPID other than 0 is free.
pub open spec fn spec_vpid_available(a: VpidAllocator) -> bool {
    exists|w: int| 0 <= w < BITMAP_WORDS && #[trigger] spec_eff_word(a.bitmap.words(), w) != u64::MAX
}

/// Whether `after` is `before` after handing out VPID `v`: `v` is not 0,
/// was free and is now in use, every other VPID except 0 keeps its state,
/// and the next search starts after `v`.
pub open spec fn spec_vpid_allocated(before: VpidAllocator, after: VpidAllocator, v: u16) -> bool {
    &&& v != 0
    &&& !before.bitmap.in_use(v)
    &&& after.bitmap.in_use(v)
    &&& forall|x: u16| x != v && x != 0 ==> #[trigger] after.bitmap.in_use(x) == before.bitmap.in_use(x)
    &&& after.hint == v.wrapping_add(1)
}

/// Whether `v` is the VPID the next allocation from `a` hands out: the
/// first free one in search order, which visits the words from the hint's
/// word to the last and then from the first, and each word from its lowest
/// VPID up (VPID 0 never counts as free).
pub open spec fn spec_next_free_vpid(a: VpidAllocator, v: u16) -> bool {
    let start = (a.hint / 64) as int;
    &&& v != 0
    &&& !a.bitmap.in_use(v)
    &&& forall|x: u16|
        #![trigger a.bitmap.in_use(x)]
        x != 0 && spec_search_step(start, (x / 64) as int) < spec_search_step(start, (v / 64) as int)
            ==> a.bitmap.in_use(x)
    &&& forall|x: u16| #![trigger a.bitmap.in_use(x)] x != 0 && x / 64 == v / 64 && x < v ==> a.bitmap.in_use(x)
}

/// A VPID other than 0 whose word the search sees as full is in use.
proof fn lemma_full_word_in_use(words: Seq<u64>, x: u16)
    requires
        x != 0,
        spec_eff_word(words, (x / 64) as int) == u64::MAX,
    ensures
        spec_bit(words[(x / 64) as int], (x % 64) as u64),
{
    let c = (x % 64) as u64;
    lemma_word_bits(words[0], c);
}

/// A VPID other than 0 below the lowest free bit of its word, as the search
/// sees it, is in use.
proof fn lemma_below_first_free_in_use(words: Seq<u64>, x: u16, t: u32)
    requires
        x != 0,
        t == u64_trailing_zeros(!spec_eff_word(words, (x / 64) as int)),
        ((x % 64) as u32) < t,
    ensures
        spec_bit(words[(x / 64) as int], (x % 64) as u64),
{
    let e = spec_eff_word(words, (x / 64) as int);
    let i = !e;
    let c = (x % 64) as u64;
    vstd::std_specs::bits::axiom_u64_trailing_zeros(i);
    let tt = t as u64;
    assert(tt <= 64);
    if tt == 64 {
        assert(i == 0);
        assert(e == u64::MAX) by (bit_vector)
            requires
                i == !e,
                i == 0,
        ;
        lemma_full_word_in_use(words, x);
    } else {
        assert(i << ((64 - tt) as u64) == 0);
        assert((e >> c) & 1 == 1) by (bit_vector)
            requires
                i == !e,
                c < tt,
                tt < 64,
                i << ((64 - tt) as u64) == 0,
        ;
        if x / 64 == 0 {
            let o = words[0];
            assert(c != 0);
            lemma_word_bits(o, c);
        }
    }
}

/// Allocate a VPID for a new VM: the first free one in search order from
/// the hint's word (see `VpidBitmap::allocate_any`); the hint moves past it.
pub fn allocate_vpid(a: &mut VpidAllocator) -> (r: u16)
    requires
        spec_vpid_available(*old(a)),
    ensures
        spec_vpid_allocated(*old(a), *final(a), r),
        spec_next_free_vpid(*old(a), r),
        old(a).bitmap.in_use(0) ==> final(a).bitmap.in_use(0),
        old(a).bitmap.words().len() == BITMAP_WORDS,
        final(a).bitmap.words().len() == BITMAP_WORDS,
        final(a).bitmap.words() == spec_after_alloc(
            old(a).bitmap.words(),
            r,
            old(a).hint / 64 == 0 || (r / 64) < old(a).hint / 64,
        ),
{
    proof {
        use_type_invariant(&a.bitmap);
    }
    let hint = a.hint;
    let ghost old_words = a.bitmap.words();
    let r = a.bitmap.allocate_any(hint);
    match r {
        Some(vpid) => {
            proof {
                let w = (vpid / 64) as int;
                let b = (vpid % 64) as u64;
                let e = spec_eff_word(old_words, w);
                vstd::std_specs::bits::axiom_u64_trailing_zeros(!e);
                assert(((!e) >> b) & 1 == 1);
                assert((e >> b) & 1 == 0) by (bit_vector)
                    requires
                        ((!e) >> b) & 1 == 1,
                ;
                if w == 0 {
                    let o = old_words[0];
                    assert(((o | 1) >> b) & 1 == 0 ==> (o >> b) & 1 == 0) by (bit_vector);
                }
                let mark0 = (hint / 64) == 0 || w < (hint / 64) as int;
                let w0 = if mark0 {
                    old_words.update(0, old_words[0] | 1)
                } else {
                    old_words
                };
                lemma_set_bit(w0[w], b, b);
                if old(a).bitmap.in_use(0) {
                    let o = old_words[0];
                    let o1 = w0[0];
                    lemma_word_bits(o, 0);
                    assert(spec_bit(o1, 0));
                    if w == 0 {
                        assert((o1 >> 0u64) & 1 == 1 ==> ((o1 | (1u64 << b)) >> 0u64) & 1 == 1)
                            by (bit_vector)
                            requires
                                b < 64,
                        ;
                    }
                }
                let start = (hint / 64) as int;
                assert forall|x: u16|
                    #![trigger old(a).bitmap.in_use(x)]
                    x != 0 && spec_search_step(start, (x / 64) as int) < spec_search_step(
                        start,
                        w,
                    ) implies old(a).bitmap.in_use(x) by {
                    let j = spec_search_step(start, (x / 64) as int);
                    assert(spec_search_word(start, j) == (x / 64) as int);
                    assert(spec_eff_word(old_words, spec_search_word(start, j)) == u64::MAX);
                    lemma_full_word_in_use(old_words, x);
                }
                assert forall|x: u16|
                    #![trigger old(a).bitmap.in_use(x)]
                    x != 0 && x / 64 == vpid / 64 && x < vpid implies old(a).bitmap.in_use(x) by {
                    lemma_below_first_free_in_use(old_words, x, u64_trailing_zeros(!e));
                }
                assert forall|x: u16| x != vpid && x != 0 implies #[trigger] a.bitmap.in_use(x)
                    == spec_bit(old_words[(x / 64) as int], (x % 64) as u64) by {
                    let xw = (x / 64) as int;
                    let xb = (x % 64) as u64;
                    if xw == w {
                        lemma_set_bit(w0[w], b, xb);
                    }
                    if xw == 0 && mark0 {
                        let o = old_words[0];
                        assert(xb != 0);
                        lemma_word_bits(o, xb);
                    }
                }
            }
            a.hint = vpid.wrapping_add(1);
            vpid
        },
        None => {
            proof {
                assert(false);
            }
            0
        },
    }
}

/// Return a VPID to the pool (VPID 0 stays reserved); the next search
/// starts no later than it.
pub fn deallocate_vpid(a: &mut VpidAllocator, vpid: u16)
    ensures
        vpid != 0 ==> !final(a).bitmap.in_use(vpid),
        forall|x: u16| x != vpid ==> #[trigger] final(a).bitmap.in_use(x) == old(a).bitmap.in_use(x),
        old(a).bitmap.words().len() == BITMAP_WORDS,
        final(a).bitmap.words().len() == BITMAP_WORDS,
        vpid == 0 ==> final(a).bitmap.words() == old(a).bitmap.words(),
        vpid != 0 ==> final(a).bitmap.words() == old(a).bitmap.words().update(
            (vpid / 64) as int,
            old(a).bitmap.words()[(vpid / 64) as int] & !(1u64 << ((vpid % 64) as u64)),
        ),
        final(a).hint == if vpid < old(a).hint {
            vpid
        } else {
            old(a).hint
        },
{
    proof {
        use_type_invariant(&a.bitmap);
    }
    let ghost old_words = a.bitmap.words();
    a.bitmap.deallocate(vpid);
    proof {
        if vpid != 0 {
            let w = (vpid / 64) as int;
            let b = (vpid % 64) as u64;
            lemma_clear_bit(old_words[w], b, b);
            assert forall|x: u16| x != vpid implies #[trigger] a.bitmap.in_use(x) == spec_bit(
                old_words[(x / 64) as int],
                (x % 64) as u64,
            ) by {
                if (x / 64) as int == w {
                    lemma_clear_bit(old_words[w], b, (x % 64) as u64);
                }
            }
        }
    }
    if vpid < a.hint {
        a.hint = vpid;
    }
}

/// Start over: only VPID 0 in use, search from 1.
pub fn reset_vpid_counter(a: &mut VpidAllocator)
    ensures
        forall|x: u16| #[trigger] final(a).bitmap.in_use(x) == (x == 0),
        final(a).hint == 1,
        spec_vpid_prefix(*final(a), 0),
        final(a).bitmap.words().len() == BITMAP_WORDS,
        spec_count_bits(final(a).bitmap.words(), BITMAP_WORDS as nat) == 1,
{
    a.bitmap.reset();
    proof {
        lemma_count_after_reset(a.bitmap.words(), BITMAP_WORDS as nat);
        assert forall|x: u16| #[trigger] a.bitmap.in_use(x) == (x == 0) by {
            let b = (x % 64) as u64;
            lemma_word_bits(0, b);
            lemma_word_bits(1, b);
        }
    }
    a.hint = 1;
}

/// Where the next search starts.
pub fn peek_next_vpid(a: &VpidAllocator) -> (r: u16)
    ensures
        r == a.hint,
{
    a.hint
}

/// Number of set bits of a word.
fn popcount(w: u64) -> (r: usize)
    ensures
        r == spec_popcount(w, 64),
{
    let mut count: usize = 0;
    let mut b: u64 = 0;
    while b < 64
        invariant
            b <= 64,
            count == spec_popcount(w, b as nat),
            count <= b,
        decreases 64 - b,
    {
        proof {
            lemma_popcount_bound(w, (b + 1) as nat);
        }
        if (w >> b) & 1 == 1 {
            count = count + 1;
        }
        b = b + 1;
    }
    count
}

/// Number of VPIDs marked in use (VPID 0 included once it is marked).
pub fn count_allocated_vpids(a: &VpidAllocator) -> (r: usize)
    ensures
        r == spec_count_bits(a.bitmap.words(), BITMAP_WORDS as nat),
        a.bitmap.words().len() == BITMAP_WORDS,
        r <= 65536,
{
    proof {
        use_type_invariant(&a.bitmap);
        lemma_count_bound(a.bitmap.words(), BITMAP_WORDS as nat);
    }
    proof {
        use_type_invariant(&a.bitmap);
    }
    let mut count: usize = 0;
    let mut i: usize = 0;
    let ghost words = a.bitmap.words();
    while i < BITMAP_WORDS
        invariant
            i <= BITMAP_WORDS,
            words == a.bitmap.words(),
            words.len() == BITMAP_WORDS,
            count == spec_count_bits(words, i as nat),
        decreases BITMAP_WORDS - i,
    {
        proof {
            lemma_count_bound(words, (i + 1) as nat);
        }
        count = count + popcount(a.bitmap.word(i));
        i += 1;
    }
    count
}


/// Whether exactly the VPIDs `0..=k` are in use and the search starts at
/// `k + 1` (after a reset, `k` is 0).
pub open spec fn spec_vpid_prefix(a: VpidAllocator, k: int) -> bool {
    &&& forall|x: u16| #[trigger] a.bitmap.in_use(x) == (x <= k)
    &&& a.hint == k + 1
}

/// When exactly the VPIDs `0..=k` are in use and the search starts at
/// `k + 1`, the next allocation hands out `k + 1`, after which exactly
/// `0..=k + 1` are in use, the search starts at `k + 2` and one more VPID
/// is counted. So after a reset (which leaves a count of 1) the allocations
/// hand out 1, 2, 3, ... in turn and the count after `k` of them is `k + 1`.
pub proof fn lemma_allocation_extends_prefix(a0: VpidAllocator, a1: VpidAllocator, k: int, v: u16)
    requires
        0 <= k < u16::MAX - 1,
        spec_vpid_prefix(a0, k),
        spec_next_free_vpid(a0, v),
        spec_vpid_allocated(a0, a1, v),
        a0.bitmap.in_use(0) ==> a1.bitmap.in_use(0),
        a0.bitmap.words().len() == BITMAP_WORDS,
        a1.bitmap.words() == spec_after_alloc(
            a0.bitmap.words(),
            v,
            a0.hint / 64 == 0 || (v / 64) < a0.hint / 64,
        ),
    ensures
        v == k + 1,
        spec_vpid_prefix(a1, k + 1),
        spec_count_bits(a1.bitmap.words(), BITMAP_WORDS as nat) == spec_count_bits(
            a0.bitmap.words(),
            BITMAP_WORDS as nat,
        ) + 1,
{
    assert(a0.bitmap.in_use(0));
    assert(!a0.bitmap.in_use(v));
    lemma_allocation_counts_one(a0, a1, v);
    let x = (k + 1) as u16;
    let start = (a0.hint / 64) as int;
    assert(!a0.bitmap.in_use(x));
    assert(a0.bitmap.in_use(0));
    if v != x {
        if v < x {
            assert(a0.bitmap.in_use(v));
        } else if x / 64 == v / 64 {
            assert(a0.bitmap.in_use(x));
        } else {
            assert(start == (x / 64) as int);
            assert(spec_search_step(start, (x / 64) as int) == 0);
            assert(spec_search_step(start, (v / 64) as int) > 0);
            assert(a0.bitmap.in_use(x));
        }
    }
    assert forall|y: u16| #[trigger] a1.bitmap.in_use(y) == (y <= k + 1) by {
        if y != v && y != 0 {
            assert(a1.bitmap.in_use(y) == a0.bitmap.in_use(y));
        }
    }
}

/// Giving back the last VPID handed out after a reset (`k` when exactly
/// `0..=k` are in use) makes exactly `0..=k - 1` in use with the search at
/// `k`, so the next allocation hands the same VPID out again.
pub proof fn lemma_free_last_of_prefix(a0: VpidAllocator, a1: VpidAllocator, k: int)
    requires
        1 <= k < u16::MAX,
        spec_vpid_prefix(a0, k),
        !a1.bitmap.in_use(k as u16),
        forall|x: u16| x != k ==> #[trigger] a1.bitmap.in_use(x) == a0.bitmap.in_use(x),
        a1.hint == if (k as u16) < a0.hint {
            k as u16
        } else {
            a0.hint
        },
    ensures
        spec_vpid_prefix(a1, k - 1),
{
    assert forall|x: u16| #[trigger] a1.bitmap.in_use(x) == (x <= k - 1) by {
        if x != k {
            assert(a1.bitmap.in_use(x) == a0.bitmap.in_use(x));
        }
    }
}

/// Setting a clear bit `b` adds one to the count of set bits below `n`
/// when `b < n`.
proof fn lemma_popcount_set(w: u64, b: u64, n: nat)
    requires
        b < 64,
        n <= 64,
        !spec_bit(w, b),
    ensures
        spec_popcount(w | (1u64 << b), n) == spec_popcount(w, n) + if b < n {
            1nat
        } else {
            0nat
        },
    decreases n,
{
    if n > 0 {
        lemma_popcount_set(w, b, (n - 1) as nat);
        lemma_set_bit(w, b, (n - 1) as u64);
    }
}

/// Replacing word `i` changes the count of the first `n` words by the
/// change of that word's count, when `i < n`.
proof fn lemma_count_update(words: Seq<u64>, i: int, nw: u64, n: nat)
    requires
        0 <= i < words.len(),
        n <= words.len(),
    ensures
        spec_count_bits(words.update(i, nw), n) == spec_count_bits(words, n) + if i < n {
            spec_popcount(nw, 64) - spec_popcount(words[i], 64)
        } else {
            0int
        },
    decreases n,
{
    if n > 0 {
        lemma_count_update(words, i, nw, (n - 1) as nat);
    }
}

/// An allocation marks one more VPID in use: with VPID 0 already marked,
/// the count of in-use VPIDs grows by exactly one.
pub proof fn lemma_allocation_counts_one(a0: VpidAllocator, a1: VpidAllocator, v: u16)
    requires
        a0.bitmap.words().len() == BITMAP_WORDS,
        a0.bitmap.in_use(0),
        !a0.bitmap.in_use(v),
        a1.bitmap.words() == spec_after_alloc(
            a0.bitmap.words(),
            v,
            a0.hint / 64 == 0 || (v / 64) < a0.hint / 64,
        ),
    ensures
        spec_count_bits(a1.bitmap.words(), BITMAP_WORDS as nat) == spec_count_bits(
            a0.bitmap.words(),
            BITMAP_WORDS as nat,
        ) + 1,
{
    let words = a0.bitmap.words();
    let o = words[0];
    lemma_word_bits(o, 0);
    assert(words.update(0, words[0] | 1) =~= words);
    let w = (v / 64) as int;
    let b = (v % 64) as u64;
    lemma_popcount_set(words[w], b, 64);
    lemma_count_update(words, w, words[w] | (1u64 << b), BITMAP_WORDS as nat);
}

/// Clearing a set bit `b` takes one from the count of set bits below `n`
/// when `b < n`.
proof fn lemma_popcount_clear(w: u64, b: u64, n: nat)
    requires
        b < 64,
        n <= 64,
        spec_bit(w, b),
    ensures
        spec_popcount(w & !(1u64 << b), n) + if b < n {
            1nat
        } else {
            0nat
        } == spec_popcount(w, n),
    decreases n,
{
    if n > 0 {
        lemma_popcount_clear(w, b, (n - 1) as nat);
        lemma_clear_bit(w, b, (n - 1) as u64);
    }
}

/// Giving back a VPID that was in use takes one from the count of in-use
/// VPIDs.
pub proof fn lemma_deallocation_counts_one(a0: VpidAllocator, a1: VpidAllocator, v: u16)
    requires
        a0.bitmap.words().len() == BITMAP_WORDS,
        v != 0,
        a0.bitmap.in_use(v),
        a1.bitmap.words() == a0.bitmap.words().update(
            (v / 64) as int,
            a0.bitmap.words()[(v / 64) as int] & !(1u64 << ((v % 64) as u64)),
        ),
    ensures
        spec_count_bits(a1.bitmap.words(), BITMAP_WORDS as nat) + 1 == spec_count_bits(
            a0.bitmap.words(),
            BITMAP_WORDS as nat,
        ),
{
    let words = a0.bitmap.words();
    let w = (v / 64) as int;
    let b = (v % 64) as u64;
    lemma_popcount_clear(words[w], b, 64);
    lemma_count_update(words, w, words[w] & !(1u64 << b), BITMAP_WORDS as nat);
}

/// The counts of set bits of the words 0 and 1.
proof fn lemma_popcount_small(n: nat)
    requires
        n <= 64,
    ensures
        spec_popcount(0, n) == 0,
        n >= 1 ==> spec_popcount(1, n) == 1,
    decreases n,
{
    if n > 0 {
        let c = (n - 1) as u64;
        lemma_popcount_small((n - 1) as nat);
        lemma_word_bits(0, c);
        lemma_word_bits(1, c);
        assert(!spec_bit(0, c));
        assert(spec_bit(1, c) == (c == 0));
        assert(spec_popcount(0, n) == spec_popcount(0, (n - 1) as nat));
        if n == 1 {
            assert(spec_popcount(1, 0) == 0);
            assert(spec_bit(1, 0));
            assert(spec_popcount(1, 1) == 1);
        } else {
            assert(spec_popcount(1, n) == spec_popcount(1, (n - 1) as nat));
        }
    }
}

/// After a reset (only VPID 0 marked) one bit is set among the first `n`
/// words, for any `n > 0`.
proof fn lemma_count_after_reset(words: Seq<u64>, n: nat)
    requires
        words == Seq::new(BITMAP_WORDS as nat, |i: int| if i == 0 { 1u64 } else { 0u64 }),
        1 <= n <= BITMAP_WORDS,
    ensures
        spec_count_bits(words, n) == 1,
    decreases n,
{
    lemma_popcount_small(64);
    if n > 1 {
        lemma_count_after_reset(words, (n - 1) as nat);
    } else {
        assert(spec_count_bits(words, 0) == 0);
    }
}

/// Two allocations in a row hand out different VPIDs, neither of them 0.
pub proof fn lemma_allocations_distinct(
    a0: VpidAllocator,
    a1: VpidAllocator,
    a2: VpidAllocator,
    v1: u16,
    v2: u16,
)
    requires
        spec_vpid_allocated(a0, a1, v1),
        spec_vpid_allocated(a1, a2, v2),
    ensures
        v1 != 0 && v2 != 0,
        v1 != v2,
        a2.bitmap.in_use(v1) && a2.bitmap.in_use(v2),
{
    assert(a2.bitmap.in_use(v1) == a1.bitmap.in_use(v1) || v1 == v2);
}

} // verus!
