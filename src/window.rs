use vstd::prelude::*;

verus! {

/// The width, in bytes, within which an aligned access of the target is
/// assumed to be indivisible.
pub const ATOMIC_WIDTH: usize = 8;

/// Whether a value of `len` bytes at `addr` lies inside one aligned window.
pub open spec fn fits_in_window(addr: int, len: int) -> bool {
    0 <= len && addr % (ATOMIC_WIDTH as int) + len <= ATOMIC_WIDTH as int
}

/// Start of the aligned window that holds `addr`.
pub open spec fn window_start(addr: int) -> int {
    addr - addr % (ATOMIC_WIDTH as int)
}

/// Position of `addr` inside its window.
pub open spec fn window_offset(addr: int) -> int {
    addr % (ATOMIC_WIDTH as int)
}

/// The bytes of a value of `len` bytes at `addr`, taken from the contents `w`
/// of its window.
pub open spec fn value_in_window(w: Seq<u8>, addr: int, len: int) -> Seq<u8> {
    w.subrange(window_offset(addr), window_offset(addr) + len)
}

/// The contents `w` of a window with the value `v` written at `addr`.
pub open spec fn spliced_window(w: Seq<u8>, addr: int, v: Seq<u8>) -> Seq<u8> {
    w.subrange(0, window_offset(addr)) + v + w.subrange(
        window_offset(addr) + v.len(),
        w.len() as int,
    )
}

/// An aligned window of `ATOMIC_WIDTH` bytes in the remote address space,
/// and the position of the requested value inside it.
#[derive(Clone, Copy, Debug, PartialEq, Eq)]
pub struct AtomicWindow {
    pub start: usize,
    pub offset: usize,
}

/// The aligned window that holds the byte at `addr`.
pub fn window_of(addr: usize) -> (w: AtomicWindow)
    ensures
        w.start == window_start(addr as int),
        w.offset == window_offset(addr as int),
        w.start % ATOMIC_WIDTH == 0,
        w.start + w.offset == addr,
        w.offset < ATOMIC_WIDTH,
{
    proof {
        lemma_window_contains(addr as int, 0);
    }
    let offset = addr % ATOMIC_WIDTH;
    AtomicWindow { start: addr - offset, offset }
}

/// The window that holds a value of `len` bytes at `addr`, or `None` where
/// the value would cross the end of its window.
pub fn containing_window(addr: usize, len: usize) -> (r: Option<AtomicWindow>)
    ensures
        r is Some <==> fits_in_window(addr as int, len as int),
        r matches Some(w) ==> {
            &&& w.start == window_start(addr as int)
            &&& w.offset == window_offset(addr as int)
            &&& w.start % ATOMIC_WIDTH == 0
            &&& w.start <= addr
            &&& addr + len <= w.start + ATOMIC_WIDTH
        },
{
    proof {
        lemma_window_contains(addr as int, len as int);
    }
    let w = window_of(addr);
    if len > ATOMIC_WIDTH - w.offset {
        None
    } else {
        Some(w)
    }
}

/// The value of `len` bytes at `addr`, cut out of the contents of its window.
pub fn load_from_window(window: &[u8], addr: usize, len: usize) -> (r: Vec<u8>)
    requires
        window@.len() == ATOMIC_WIDTH,
        fits_in_window(addr as int, len as int),
    ensures
        r@ == value_in_window(window@, addr as int, len as int),
{
    let offset = addr % ATOMIC_WIDTH;
    let mut out: Vec<u8> = Vec::with_capacity(len);
    let mut i: usize = 0;
    while i < len
        invariant
            window@.len() == ATOMIC_WIDTH,
            offset == window_offset(addr as int),
            offset + len <= ATOMIC_WIDTH,
            i <= len,
            out@ == window@.subrange(offset as int, offset + i),
        decreases len - i,
    {
        out.push(window[offset + i]);
        i = i + 1;
        assert(out@ =~= window@.subrange(offset as int, offset + i));
    }
    out
}

/// The contents of a window once the value `val` is written at `addr`; the
/// bytes outside the value keep what `window` held.
pub fn store_into_window(window: &[u8], addr: usize, val: &[u8]) -> (r: Vec<u8>)
    requires
        window@.len() == ATOMIC_WIDTH,
        fits_in_window(addr as int, val@.len() as int),
    ensures
        r@ == spliced_window(window@, addr as int, val@),
{
    let offset = addr % ATOMIC_WIDTH;
    let len = val.len();
    let mut out: Vec<u8> = Vec::with_capacity(ATOMIC_WIDTH);
    let mut i: usize = 0;
    while i < ATOMIC_WIDTH
        invariant
            window@.len() == ATOMIC_WIDTH,
            val@.len() == len,
            offset == window_offset(addr as int),
            offset + len <= ATOMIC_WIDTH,
            i <= ATOMIC_WIDTH,
            out@.len() == i,
            forall|j: int|
                0 <= j < i ==> out@[j] == if offset <= j < offset + len {
                    val@[j - offset]
                } else {
                    window@[j]
                },
        decreases ATOMIC_WIDTH - i,
    {
        if offset <= i && i < offset + len {
            out.push(val[i - offset]);
        } else {
            out.push(window[i]);
        }
        i = i + 1;
    }
    assert(out@ =~= spliced_window(window@, addr as int, val@));
    out
}

/// A value written into a window and read back from the same address is the
/// value that was written, whatever the window held before.
pub proof fn lemma_store_then_load(w: Seq<u8>, addr: int, v: Seq<u8>)
    requires
        w.len() == ATOMIC_WIDTH,
        fits_in_window(addr, v.len() as int),
    ensures
        value_in_window(spliced_window(w, addr, v), addr, v.len() as int) == v,
{
    assert(value_in_window(spliced_window(w, addr, v), addr, v.len() as int) =~= v);
}

/// Writing a value into a window keeps the window's size and leaves every
/// byte outside the value as it was.
pub proof fn lemma_store_keeps_neighbours(w: Seq<u8>, addr: int, v: Seq<u8>)
    requires
        w.len() == ATOMIC_WIDTH,
        fits_in_window(addr, v.len() as int),
    ensures
        spliced_window(w, addr, v).len() == ATOMIC_WIDTH,
        forall|i: int|
            0 <= i < ATOMIC_WIDTH && !(window_offset(addr) <= i < window_offset(addr) + v.len())
                ==> #[trigger] spliced_window(w, addr, v)[i] == w[i],
{
    let off = window_offset(addr);
    let s = spliced_window(w, addr, v);
    assert forall|i: int|
        0 <= i < ATOMIC_WIDTH && !(off <= i < off + v.len()) implies #[trigger] s[i] == w[i] by {
        if i >= off + v.len() {
            assert(s[i] == w.subrange(off + v.len(), w.len() as int)[i - off - v.len()]);
        }
    }
}

/// For every address, a value that fits its window lies wholly inside an
/// aligned window of `ATOMIC_WIDTH` bytes; a value wider than that fits no
/// window.
pub proof fn lemma_window_contains(addr: int, len: int)
    ensures
        fits_in_window(addr, len) ==> {
            &&& window_start(addr) % (ATOMIC_WIDTH as int) == 0
            &&& window_start(addr) <= addr
            &&& addr + len <= window_start(addr) + ATOMIC_WIDTH
        },
        len > ATOMIC_WIDTH ==> !fits_in_window(addr, len),
{
    let w = ATOMIC_WIDTH as int;
    assert(window_start(addr) % w == 0) by {
        vstd::arithmetic::div_mod::lemma_fundamental_div_mod(addr, w);
        vstd::arithmetic::div_mod::lemma_mod_multiples_basic(addr / w, w);
    }
}

} // verus!
