//! The strings that cross the boundary to the host: byte sequences that end at
//! their first zero byte. A string that comes in is borrowed memory and is only
//! read; a string that goes out is a buffer of this library's own, which the
//! receiver hands back to `fun_rust_string_free` and to nothing else.

use vstd::prelude::*;

verus! {

/// Whether the first zero byte of `mem` stands at index `n`.
pub open spec fn terminated_at(mem: Seq<u8>, n: int) -> bool {
    &&& 0 <= n < mem.len()
    &&& mem[n] == 0
    &&& forall|j: int| 0 <= j < n ==> mem[j] != 0
}

/// Whether `mem` holds a zero byte, and with it a string.
pub open spec fn has_terminator(mem: Seq<u8>) -> bool {
    exists|i: int| 0 <= i < mem.len() && mem[i] == 0
}

/// The length of the string that starts `mem`: the index of its first zero
/// byte.
pub open spec fn text_len(mem: Seq<u8>) -> int {
    choose|n: int| terminated_at(mem, n)
}

/// The bytes of the string that starts `mem`, without the terminator.
pub open spec fn text(mem: Seq<u8>) -> Seq<u8> {
    mem.take(text_len(mem))
}

/// What duplicating a borrowed string gives: its bytes and a terminator. A
/// null pointer, `None`, counts as the empty string.
pub open spec fn duplicate(input: Option<Seq<u8>>) -> Seq<u8> {
    match input {
        Some(mem) => text(mem).push(0),
        None => seq![0u8],
    }
}

/// The number of bytes that releasing a buffer gives back: the string's length
/// and one more for the terminator, and nothing for a null pointer.
pub open spec fn released_size(buffer: Option<Seq<u8>>) -> int {
    match buffer {
        Some(mem) => text_len(mem) + 1,
        None => 0,
    }
}

/// The static greeting, terminator included.
pub open spec fn greeting() -> Seq<char> {
    "Hello from Rust ops!\0"@
}

/// A sequence has at most one first zero byte.
pub proof fn lemma_terminator_unique(mem: Seq<u8>, n: int, m: int)
    requires
        terminated_at(mem, n),
        terminated_at(mem, m),
    ensures
        n == m,
{
}

/// A sequence with a zero byte at `k` has a first zero byte, at `k` or before
/// it, and `text_len` is its index.
pub proof fn lemma_first_terminator(mem: Seq<u8>, k: int)
    requires
        0 <= k < mem.len(),
        mem[k] == 0,
    ensures
        terminated_at(mem, text_len(mem)),
        text_len(mem) <= k,
    decreases k,
{
    if exists|j: int| 0 <= j < k && mem[j] == 0 {
        let j = choose|j: int| 0 <= j < k && mem[j] == 0;
        lemma_first_terminator(mem, j);
    } else {
        assert(terminated_at(mem, k));
        lemma_terminator_unique(mem, k, text_len(mem));
    }
}

/// The string length of a sequence whose first zero byte is at `n` is `n`.
pub proof fn lemma_text_len(mem: Seq<u8>, n: int)
    requires
        terminated_at(mem, n),
    ensures
        text_len(mem) == n,
{
    lemma_terminator_unique(mem, n, text_len(mem));
}

/// The length of the string that starts `mem`, found by scanning forward for
/// the terminator.
pub fn string_length(mem: &[u8]) -> (n: usize)
    requires
        has_terminator(mem@),
    ensures
        terminated_at(mem@, n as int),
        n == text_len(mem@),
{
    let mut n: usize = 0;
    let ghost k: int = choose|i: int| 0 <= i < mem@.len() && mem@[i] == 0;
    while mem[n] != 0
        invariant
            0 <= n <= k < mem@.len(),
            mem@[k] == 0,
            forall|j: int| 0 <= j < n ==> mem@[j] != 0,
        decreases k - n,
    {
        n += 1;
    }
    proof {
        lemma_text_len(mem@, n as int);
    }
    n
}

/// A string buffer that this library made and handed out. It holds the
/// string's bytes and, last, the one zero byte that ends it.
#[derive(Debug)]
pub struct OwnedString {
    bytes: Vec<u8>,
}

impl View for OwnedString {
    type V = Seq<u8>;

    closed spec fn view(&self) -> Seq<u8> {
        self.bytes@
    }
}

impl OwnedString {
    /// What holds of every buffer: its last byte is its only zero byte.
    #[verifier::type_invariant]
    spec fn ended(self) -> bool {
        terminated_at(self.bytes@, self.bytes@.len() - 1)
    }

    /// Takes charge of `bytes` as a buffer, where they are one: `Some` exactly
    /// where `bytes` ends with its only zero byte.
    pub fn from_vec(bytes: Vec<u8>) -> (out: Option<OwnedString>)
        ensures
            out.is_some() <==> terminated_at(bytes@, bytes@.len() - 1),
            out.is_some() ==> out.unwrap()@ == bytes@,
    {
        let mut i: usize = 0;
        while i < bytes.len() && bytes[i] != 0
            invariant
                0 <= i <= bytes@.len(),
                forall|j: int| 0 <= j < i ==> bytes@[j] != 0,
            decreases bytes@.len() - i,
        {
            i += 1;
        }
        if i < bytes.len() && i + 1 == bytes.len() {
            Some(OwnedString { bytes })
        } else {
            None
        }
    }

    /// Gives the buffer's bytes out, terminator included.
    pub fn into_vec(self) -> (bytes: Vec<u8>)
        ensures
            bytes@ == self@,
            terminated_at(bytes@, bytes@.len() - 1),
    {
        proof {
            use_type_invariant(&self);
        }
        self.bytes
    }

    /// The bytes of the buffer, terminator included.
    pub fn as_bytes(&self) -> (bytes: &[u8])
        ensures
            bytes@ == self@,
            terminated_at(bytes@, bytes@.len() - 1),
    {
        proof {
            use_type_invariant(self);
        }
        self.bytes.as_slice()
    }
}

/// The static greeting. It is no buffer of the kind that
/// `fun_rust_string_free` takes.
pub fn fun_rust_get_string() -> (s: &'static str)
    ensures
        s@ == greeting(),
        s@.len() == 21,
        s@[20] == '\0',
        forall|i: int| 0 <= i < 20 ==> s@[i] != '\0',
{
    proof {
        reveal_strlit("Hello from Rust ops!\0");
    }
    "Hello from Rust ops!\0"
}

/// The bytes that printing the borrowed string `msg` sends to the standard
/// output, the string unchanged and a newline, and the status 0.
pub fn fun_rust_print_string(msg: &[u8]) -> (out: (Vec<u8>, i32))
    requires
        has_terminator(msg@),
    ensures
        out.0@ == text(msg@).push(10),
        out.1 == 0,
{
    let mut line = copy_text(msg);
    line.push(10);
    (line, 0)
}

/// A new buffer with the bytes of the borrowed string `input`, whatever they
/// are, and a terminator. A null pointer, `None`, gives the empty string.
pub fn fun_rust_echo_string(input: Option<&[u8]>) -> (out: OwnedString)
    requires
        input.is_some() ==> has_terminator(input.unwrap()@),
    ensures
        out@ == duplicate(
            match input {
                Some(mem) => Some(mem@),
                None => None,
            },
        ),
        terminated_at(out@, out@.len() - 1),
{
    let mut bytes = match input {
        Some(mem) => copy_text(mem),
        None => Vec::new(),
    };
    bytes.push(0);
    OwnedString { bytes }
}

/// Releases a buffer that `fun_rust_echo_string` made, and returns the number
/// of bytes given back: the string's length, found by scanning forward for the
/// terminator, and one more. A null pointer, `None`, releases nothing.
pub fn fun_rust_string_free(buffer: Option<OwnedString>) -> (released: usize)
    ensures
        released == released_size(
            match buffer {
                Some(owned) => Some(owned@),
                None => None,
            },
        ),
        buffer.is_some() ==> released == buffer.unwrap()@.len() && terminated_at(
            buffer.unwrap()@,
            released - 1,
        ),
{
    match buffer {
        Some(owned) => {
            proof {
                use_type_invariant(&owned);
            }
            let len = string_length(owned.bytes.as_slice());
            len + 1
        },
        None => 0,
    }
}

/// The bytes of the string that starts `mem`, without the terminator.
fn copy_text(mem: &[u8]) -> (copy: Vec<u8>)
    requires
        has_terminator(mem@),
    ensures
        copy@ == text(mem@),
        forall|j: int| 0 <= j < copy@.len() ==> copy@[j] != 0,
{
    let len = string_length(mem);
    let mut copy: Vec<u8> = Vec::new();
    let mut i: usize = 0;
    while i < len
        invariant
            0 <= i <= len < mem@.len(),
            copy@ == mem@.take(i as int),
        decreases len - i,
    {
        copy.push(mem[i]);
        i += 1;
        assert(mem@.take(i as int) =~= mem@.take(i - 1).push(mem@[i - 1]));
    }
    copy
}

/// A buffer made by duplicating a string can be released: it ends with its
/// only zero byte, it holds every byte of the string in order, and releasing
/// it gives back the string's length and one more byte.
pub proof fn lemma_duplicate_then_release(mem: Seq<u8>)
    requires
        has_terminator(mem),
    ensures
        terminated_at(duplicate(Some(mem)), text_len(mem)),
        duplicate(Some(mem)).len() == text_len(mem) + 1,
        duplicate(Some(mem)).take(text_len(mem)) == text(mem),
        text(duplicate(Some(mem))) == text(mem),
        released_size(Some(duplicate(Some(mem)))) == text_len(mem) + 1,
{
    let k = choose|i: int| 0 <= i < mem.len() && mem[i] == 0;
    lemma_first_terminator(mem, k);
    let copy = duplicate(Some(mem));
    assert(copy.take(text_len(mem)) =~= text(mem));
    assert(terminated_at(copy, text_len(mem)));
    lemma_text_len(copy, text_len(mem));
}

/// Duplicating a null pointer gives a buffer of one zero byte, which can be
/// released.
pub proof fn lemma_duplicate_null()
    ensures
        duplicate(None) == seq![0u8],
        terminated_at(duplicate(None), 0),
        released_size(Some(duplicate(None))) == 1,
{
    lemma_text_len(duplicate(None), 0);
}

} // verus!
