//! Raw bytes read back from a device, and the 32-bit words in them.
use vstd::prelude::*;

verus! {

/// The order in which a machine lays out the bytes of a word.
#[derive(Debug, Clone, Copy, PartialEq, Eq, Structural)]
pub enum ByteOrder {
    Little,
    Big,
}

/// The word that four bytes hold.
pub open spec fn word_of(order: ByteOrder, b: Seq<u8>) -> u32 {
    match order {
        ByteOrder::Little => (b[0] + 0x100 * b[1] + 0x1_0000 * b[2] + 0x100_0000 * b[3]) as u32,
        ByteOrder::Big => (b[3] + 0x100 * b[2] + 0x1_0000 * b[1] + 0x100_0000 * b[0]) as u32,
    }
}

/// The word at position `k`, counted in words.
pub open spec fn word_at(order: ByteOrder, bytes: Seq<u8>, k: int) -> u32 {
    word_of(order, bytes.subrange(4 * k, 4 * k + 4))
}

/// The words at positions `0..n`.
pub open spec fn words(order: ByteOrder, bytes: Seq<u8>, n: nat) -> Seq<u32> {
    Seq::new(n, |k: int| word_at(order, bytes, k))
}

/// The length of the bytes that belong to a tensor of `size` bytes, out of
/// `len` bytes that its storage holds.
pub open spec fn kept_len(len: nat, size: u64) -> nat {
    if (size as usize) < len {
        (size as usize) as nat
    } else {
        len
    }
}

/// The bytes of a tensor of `size` bytes, out of those that its storage holds.
pub open spec fn tensor_bytes(bytes: Seq<u8>, size: u64) -> Seq<u8> {
    bytes.take(kept_len(bytes.len(), size) as int)
}

/// `bytemuck::cast_slice`, from bytes to groups of four bytes: the groups are
/// the consecutive quarters of the input, in order. The cast panics where the
/// length is no multiple of four, which is left out. A byte array is aligned
/// as a byte is, so alignment never matters.
#[verifier::external_body]
fn cast_quads(bytes: &[u8]) -> (r: &[[u8; 4]])
    requires
        bytes@.len() % 4 == 0,
    ensures
        r@.len() == bytes@.len() / 4,
        forall|k: int| 0 <= k < r@.len() ==> #[trigger] r@[k]@ == bytes@.subrange(4 * k, 4 * k + 4),
{
    bytemuck::cast_slice::<u8, [u8; 4]>(bytes)
}

/// The word that four bytes hold.
pub fn word_from(order: ByteOrder, b: [u8; 4]) -> (r: u32)
    ensures
        r == word_of(order, b@),
{
    let b0: u32 = b[0] as u32;
    let b1: u32 = b[1] as u32;
    let b2: u32 = b[2] as u32;
    let b3: u32 = b[3] as u32;
    match order {
        ByteOrder::Little => b0 + 0x100 * b1 + 0x1_0000 * b2 + 0x100_0000 * b3,
        ByteOrder::Big => b3 + 0x100 * b2 + 0x1_0000 * b1 + 0x100_0000 * b0,
    }
}

/// All the words of a byte string whose length is a multiple of four.
pub fn all_words(order: ByteOrder, bytes: &[u8]) -> (r: Vec<u32>)
    requires
        bytes@.len() % 4 == 0,
    ensures
        r@ == words(order, bytes@, bytes@.len() / 4),
{
    let quads: &[[u8; 4]] = cast_quads(bytes);
    let mut r: Vec<u32> = Vec::new();
    let mut k: usize = 0;
    while k < quads.len()
        invariant
            k <= quads@.len(),
            quads@.len() == bytes@.len() / 4,
            forall|j: int|
                0 <= j < quads@.len() ==> #[trigger] quads@[j]@ == bytes@.subrange(4 * j, 4 * j + 4),
            r@ == words(order, bytes@, k as nat),
        decreases quads@.len() - k,
    {
        assert(quads@[k as int]@ == bytes@.subrange(4 * k as int, 4 * k as int + 4));
        r.push(word_from(order, quads[k]));
        k += 1;
        assert(r@ =~= words(order, bytes@, k as nat));
    }
    r
}

/// The first `n` words of a byte string that holds at least as many.
pub fn first_words(order: ByteOrder, bytes: &[u8], n: usize) -> (r: Vec<u32>)
    requires
        4 * n <= bytes@.len(),
    ensures
        r@ == words(order, bytes@, n as nat),
{
    let total: usize = bytes.len();
    let mut r: Vec<u32> = Vec::new();
    let mut k: usize = 0;
    while k < n
        invariant
            k <= n,
            4 * n <= total,
            total == bytes@.len(),
            r@ == words(order, bytes@, k as nat),
        decreases n - k,
    {
        let at: usize = 4 * k;
        let quad: [u8; 4] = [bytes[at], bytes[at + 1], bytes[at + 2], bytes[at + 3]];
        assert(quad@ =~= bytes@.subrange(4 * k as int, 4 * k as int + 4));
        r.push(word_from(order, quad));
        k += 1;
        assert(r@ =~= words(order, bytes@, k as nat));
    }
    r
}

/// The bytes of a tensor of `size` bytes: those that its storage holds, cut to
/// the tensor's size where there are more.
pub fn cut_to_tensor(bytes: &[u8], size: u64) -> (r: Vec<u8>)
    ensures
        r@ == tensor_bytes(bytes@, size),
{
    let limit: usize = size as usize;
    let n: usize = if limit < bytes.len() {
        limit
    } else {
        bytes.len()
    };
    let mut r: Vec<u8> = Vec::new();
    let mut i: usize = 0;
    while i < n
        invariant
            i <= n <= bytes@.len(),
            r@ == bytes@.take(i as int),
        decreases n - i,
    {
        r.push(bytes[i]);
        i += 1;
        assert(r@ =~= bytes@.take(i as int));
    }
    r
}

/// A tensor whose storage holds exactly its bytes keeps all of them, and cutting
/// what was cut before changes nothing.
pub proof fn law_tensor_bytes(bytes: Seq<u8>, size: u64)
    ensures
        bytes.len() == size as usize ==> tensor_bytes(bytes, size) == bytes,
        tensor_bytes(tensor_bytes(bytes, size), size) == tensor_bytes(bytes, size),
{
    assert(bytes.len() == size as usize ==> tensor_bytes(bytes, size) =~= bytes);
    assert(tensor_bytes(tensor_bytes(bytes, size), size) =~= tensor_bytes(bytes, size));
}

proof fn lemma_word_determines_bytes(order: ByteOrder, a: Seq<u8>, b: Seq<u8>)
    requires
        a.len() == 4,
        b.len() == 4,
        word_of(order, a) == word_of(order, b),
    ensures
        a == b,
{
    assert(a[0] == b[0] && a[1] == b[1] && a[2] == b[2] && a[3] == b[3]);
    assert(a =~= b);
}

/// No byte is lost in reading words: byte strings of the same whole number of
/// words that hold the same words are the same.
pub proof fn law_words_determine_bytes(order: ByteOrder, a: Seq<u8>, b: Seq<u8>, n: nat)
    requires
        a.len() == 4 * n,
        b.len() == 4 * n,
        words(order, a, n) == words(order, b, n),
    ensures
        a == b,
{
    assert forall|i: int| 0 <= i < a.len() implies a[i] == b[i] by {
        let k = i / 4;
        assert(words(order, a, n)[k] == word_at(order, a, k));
        assert(words(order, b, n)[k] == word_at(order, b, k));
        let x = a.subrange(4 * k, 4 * k + 4);
        let y = b.subrange(4 * k, 4 * k + 4);
        lemma_word_determines_bytes(order, x, y);
        assert(x[i - 4 * k] == y[i - 4 * k]);
    }
    assert(a =~= b);
}

/// The digit at place `k` of a word, counted from the lowest, in base 256.
pub open spec fn base_256_digit(word: u32, k: int) -> int {
    if k == 0 {
        word as int % 256
    } else if k == 1 {
        word as int / 256 % 256
    } else if k == 2 {
        word as int / 0x1_0000 % 256
    } else {
        word as int / 0x100_0000
    }
}

/// The bytes of a word are its digits in base 256: from the lowest on where the
/// order is little-endian, from the highest on where it is big-endian.
pub proof fn law_bytes_are_digits(order: ByteOrder, b: [u8; 4], r: u32, k: int)
    requires
        call_ensures(word_from, (order, b), r),
        0 <= k < 4,
    ensures
        order == ByteOrder::Little ==> b@[k] == base_256_digit(r, k),
        order == ByteOrder::Big ==> b@[k] == base_256_digit(r, 3 - k),
{
    lemma_digits_of_word(order, b@, k);
}

proof fn lemma_digits_of_word(order: ByteOrder, b: Seq<u8>, k: int)
    requires
        b.len() == 4,
        0 <= k < 4,
    ensures
        order == ByteOrder::Little ==> b[k] == base_256_digit(word_of(order, b), k),
        order == ByteOrder::Big ==> b[k] == base_256_digit(word_of(order, b), 3 - k),
{
    match order {
        ByteOrder::Little => {
            lemma_digits(b[0] as int, b[1] as int, b[2] as int, b[3] as int);
        },
        ByteOrder::Big => {
            lemma_digits(b[3] as int, b[2] as int, b[1] as int, b[0] as int);
        },
    }
}

proof fn lemma_digits(d0: int, d1: int, d2: int, d3: int)
    requires
        0 <= d0 < 256,
        0 <= d1 < 256,
        0 <= d2 < 256,
        0 <= d3 < 256,
    ensures
        ({
            let w = d0 + 0x100 * d1 + 0x1_0000 * d2 + 0x100_0000 * d3;
            &&& 0 <= w <= u32::MAX
            &&& w % 256 == d0
            &&& w / 256 % 256 == d1
            &&& w / 0x1_0000 % 256 == d2
            &&& w / 0x100_0000 == d3
        }),
{
    let w = d0 + 0x100 * d1 + 0x1_0000 * d2 + 0x100_0000 * d3;
    let q1 = d1 + 0x100 * d2 + 0x1_0000 * d3;
    let q2 = d2 + 0x100 * d3;
    assert(w / 256 == q1 && w % 256 == d0) by {
        vstd::arithmetic::div_mod::lemma_fundamental_div_mod_converse(w, 256, q1, d0);
    }
    assert(q1 % 256 == d1) by {
        vstd::arithmetic::div_mod::lemma_fundamental_div_mod_converse(q1, 256, q2, d1);
    }
    assert(w / 0x1_0000 == q2) by {
        vstd::arithmetic::div_mod::lemma_fundamental_div_mod_converse(
            w,
            0x1_0000,
            q2,
            d0 + 0x100 * d1,
        );
    }
    assert(q2 % 256 == d2) by {
        vstd::arithmetic::div_mod::lemma_fundamental_div_mod_converse(q2, 256, d3, d2);
    }
    assert(w / 0x100_0000 == d3) by {
        vstd::arithmetic::div_mod::lemma_fundamental_div_mod_converse(
            w,
            0x100_0000,
            d3,
            d0 + 0x100 * d1 + 0x1_0000 * d2,
        );
    }
}

/// The words of a byte string are those of its consecutive quarters: the byte at
/// place `i` of quarter `k` is a digit of word `k`.
pub proof fn law_words_are_of_quarters(
    order: ByteOrder,
    bytes: Seq<u8>,
    k: int,
    i: int,
)
    requires
        0 <= k,
        4 * k + 4 <= bytes.len(),
        0 <= i < 4,
    ensures
        order == ByteOrder::Little ==> bytes[4 * k + i] == base_256_digit(
            word_at(order, bytes, k),
            i,
        ),
        order == ByteOrder::Big ==> bytes[4 * k + i] == base_256_digit(
            word_at(order, bytes, k),
            3 - i,
        ),
{
    let quarter = bytes.subrange(4 * k, 4 * k + 4);
    assert(quarter[i] == bytes[4 * k + i]);
    lemma_digits_of_word(order, quarter, i);
}

/// All words of a byte string are as many as it has quarters, and its first words
/// as many as were asked for; each is the word of its quarter.
pub proof fn law_words_are_read_in_order(
    order: ByteOrder,
    bytes: &[u8],
    n: usize,
    all: Vec<u32>,
    first: Vec<u32>,
    k: int,
)
    requires
        bytes@.len() % 4 == 0,
        4 * n <= bytes@.len(),
        call_ensures(all_words, (order, bytes), all),
        call_ensures(first_words, (order, bytes, n), first),
    ensures
        4 * all@.len() == bytes@.len(),
        first@.len() == n,
        0 <= k < all@.len() ==> all@[k] == word_at(order, bytes@, k),
        0 <= k < n ==> first@[k] == all@[k],
{
}

/// The bytes of a tensor are the first that its storage holds: all of them, or
/// as many as the tensor has if that is fewer.
pub proof fn law_storage_is_cut_at_the_end(bytes: &[u8], size: u64, r: Vec<u8>, i: int)
    requires
        size <= usize::MAX,
        call_ensures(cut_to_tensor, (bytes, size), r),
    ensures
        r@.len() <= bytes@.len(),
        r@.len() <= size,
        r@.len() == bytes@.len() || r@.len() == size,
        0 <= i < r@.len() ==> r@[i] == bytes@[i],
        tensor_bytes(bytes@, size) == r@,
{
}

} // verus!
