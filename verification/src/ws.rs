//! A task-centric store to share data with the C layers: a workspace hands out slices of one
//! region from its front, each rounded up to the alignment of a pointer, until the region is
//! used up. Nothing is freed: the whole workspace is wiped at the end of the task.
use vstd::prelude::*;
use crate::text::{cat, decimal, spec_decimal};
use vstd::string::StringSliceAdditionalSpecFns;

verus! {

/// The alignment every allocation is rounded up to: that of a pointer.
pub open spec fn ws_align() -> nat {
    let a = vstd::layout::align_of::<&'static u8>();
    if a == 0 { 1 } else { a }
}

fn align() -> (al: usize)
    ensures
        al == ws_align(),
        al > 0,
{
    vstd::layout::layout_for_type_is_valid::<&'static u8>();
    let al = core::mem::align_of::<&'static u8>();
    assert(vstd::arithmetic::power2::is_pow2(al as int));
    al
}

/// `sz` rounded up to the alignment of a pointer.
pub open spec fn round_up(sz: nat) -> nat {
    (((sz + ws_align() - 1) as nat) / ws_align() * ws_align()) as nat
}

/// A slice of a workspace: where it starts in the workspace's region, and its length.
#[derive(Debug, Clone, Copy, PartialEq, Eq, Structural)]
pub struct WsBuf {
    pub start: usize,
    pub len: usize,
}

impl WsBuf {
    /// Number of bytes of the slice.
    pub fn len(&self) -> (r: usize)
        ensures
            r == self.len,
    {
        self.len
    }
}

/// A workspace object
///
/// Used to allocate memory in an efficient manner, data will live there until the end of the
/// transaction and the workspace is wiped, so there's no need to free the objects living in it.
pub struct WS {
    space: Vec<u8>,
    f: usize,
    e: usize,
}

/// The view of a [`WS`]: the bytes of its region, the offset of the first free byte, and the end
/// of the usable part.
pub struct WsView {
    pub space: Seq<u8>,
    pub f: nat,
    pub e: nat,
}

impl View for WS {
    type V = WsView;

    closed spec fn view(&self) -> WsView {
        WsView { space: self.space@, f: self.f as nat, e: self.e as nat }
    }
}

impl WsView {
    /// The free part lies inside the region.
    pub open spec fn wf(self) -> bool {
        self.f <= self.e <= self.space.len() <= usize::MAX
    }

    /// The bytes of `b`.
    pub open spec fn bytes(self, b: WsBuf) -> Seq<u8> {
        self.space.subrange(b.start as int, b.start + b.len)
    }
}

/// `space` with `data` written from `start`.
pub open spec fn spec_write(space: Seq<u8>, start: int, data: Seq<u8>) -> Seq<u8> {
    space.take(start) + data + space.skip(start + data.len())
}

/// The message of a failed allocation of `sz` bytes.
pub open spec fn spec_alloc_error(sz: nat) -> Seq<char> {
    "workspace allocation ("@ + spec_decimal(sz) + " bytes) failed"@
}

/// An allocation of `sz` bytes: a slice at the first free byte, the free part moving on by
/// `sz` rounded up; or, when the rest of the workspace is too small, the error.
pub open spec fn spec_alloc(v: WsView, sz: nat) -> Result<(WsView, WsBuf), Seq<char>> {
    if v.e - v.f < round_up(sz) {
        Err(spec_alloc_error(sz))
    } else {
        Ok((WsView { f: v.f + round_up(sz), ..v }, WsBuf { start: v.f as usize, len: sz as usize }))
    }
}

/// An allocation fits in `usize` arithmetic.
pub open spec fn alloc_size_ok(sz: nat) -> bool {
    sz + ws_align() <= usize::MAX
}

proof fn lemma_round_up(sz: nat, al: nat)
    requires
        al > 0,
    ensures
        sz <= ((sz + al - 1) as nat) / al * al,
        ((sz + al - 1) as nat) / al * al <= sz + al - 1,
{
    let x = (sz + al - 1) as nat;
    assert(x == (x / al) * al + x % al) by (nonlinear_arith)
        requires al > 0;
    assert(x % al < al) by (nonlinear_arith)
        requires al > 0;
}

impl WS {
    /// Allocate a `[u8; sz]` and return the slice.
    pub fn allocate(&mut self, sz: usize) -> (r: Result<WsBuf, String>)
        requires
            old(self)@.wf(),
            alloc_size_ok(sz as nat),
        ensures
            final(self)@.wf(),
            match (r, spec_alloc(old(self)@, sz as nat)) {
                (Ok(b), Ok((v, c))) => b == c && final(self)@ == v,
                (Err(m), Err(n)) => m@ == n && final(self)@ == old(self)@,
                _ => false,
            },
    {
        let al = align();
        proof {
            lemma_round_up(sz as nat, al as nat);
        }
        let aligned_sz = ((sz + al - 1) / al) * al;
        if self.e - self.f < aligned_sz {
            let msg = cat("workspace allocation (", decimal(sz as u64).as_str());
            let msg = cat(msg.as_str(), " bytes) failed");
            Err(msg)
        } else {
            let start = self.f;
            self.f = self.f + aligned_sz;
            Ok(WsBuf { start, len: sz })
        }
    }

    /// The bytes of a slice of the workspace.
    pub fn bytes(&self, b: &WsBuf) -> (r: &[u8])
        requires
            b.start + b.len <= self@.space.len(),
        ensures
            r@ == self@.bytes(*b),
    {
        let s = self.space.as_slice();
        let n = s.len();
        &s[b.start..b.start + b.len]
    }

    /// Writes `src` into the workspace's region, from `start`.
    fn write_at(&mut self, start: usize, src: &[u8])
        requires
            start + src@.len() <= old(self)@.space.len(),
        ensures
            final(self)@.f == old(self)@.f,
            final(self)@.e == old(self)@.e,
            final(self)@.space == old(self)@.space.take(start as int) + src@
                + old(self)@.space.skip(start + src@.len()),
    {
        let ghost orig = self.space@;
        let ghost f0 = self.f;
        let ghost e0 = self.e;
        let n = self.space.len();
        let mut i: usize = 0;
        while i < src.len()
            invariant
                i <= src@.len(),
                start + src@.len() <= orig.len(),
                orig.len() == n,
                self.f == f0,
                self.e == e0,
                self.space@.len() == orig.len(),
                self.space@ == orig.take(start as int) + src@.take(i as int) + orig.skip(start + i),
            decreases src.len() - i,
        {
            self.space.set(start + i, src[i]);
            assert(self.space@ =~= orig.take(start as int) + src@.take(i + 1) + orig.skip(start + i + 1));
            i = i + 1;
        }
        assert(src@.take(src@.len() as int) =~= src@);
    }

    /// Copy bytes into the workspace.
    pub fn copy_bytes(&mut self, src: &[u8]) -> (r: Result<WsBuf, String>)
        requires
            old(self)@.wf(),
            alloc_size_ok(src@.len()),
        ensures
            final(self)@.wf(),
            match (r, spec_alloc(old(self)@, src@.len())) {
                (Ok(b), Ok((v, c))) => b == c && final(self)@.f == v.f && final(self)@.e == v.e
                    && final(self)@.space.len() == old(self)@.space.len()
                    && final(self)@.bytes(b) == src@
                    && final(self)@.space == spec_write(old(self)@.space, b.start as int, src@)
                    && final(self)@.space.take(old(self)@.f as int) == old(self)@.space.take(old(self)@.f as int),
                (Err(m), Err(n)) => m@ == n && final(self)@ == old(self)@,
                _ => false,
            },
    {
        let l = src.len();
        let dest = self.allocate(l)?;
        proof {
            lemma_round_up(l as nat, ws_align());
        }
        self.write_at(dest.start, src);
        proof {
            let sp = self@.space;
            assert(sp.subrange(dest.start as int, dest.start + dest.len) =~= src@);
            assert(sp.take(old(self)@.f as int) =~= old(self)@.space.take(old(self)@.f as int));
        }
        Ok(dest)
    }

    /// Same as [`WS::copy_bytes`] but adds a NUL byte at the end to help convert buffers into
    /// `VCL_STRING`s.
    pub fn copy_bytes_with_null(&mut self, src: &[u8]) -> (r: Result<WsBuf, String>)
        requires
            old(self)@.wf(),
            alloc_size_ok(src@.len() + 1),
        ensures
            final(self)@.wf(),
            match (r, spec_alloc(old(self)@, src@.len() + 1)) {
                (Ok(b), Ok((v, c))) => b == c && final(self)@.f == v.f && final(self)@.e == v.e
                    && final(self)@.space.len() == old(self)@.space.len()
                    && final(self)@.bytes(b) == src@.push(0u8)
                    && final(self)@.space == spec_write(old(self)@.space, b.start as int, src@.push(0u8))
                    && final(self)@.space.take(old(self)@.f as int) == old(self)@.space.take(old(self)@.f as int),
                (Err(m), Err(n)) => m@ == n && final(self)@ == old(self)@,
                _ => false,
            },
    {
        let l = src.len();
        let dest = self.allocate(l + 1)?;
        proof {
            lemma_round_up((l + 1) as nat, ws_align());
        }
        self.write_at(dest.start, src);
        self.space.set(dest.start + l, 0u8);
        proof {
            let sp = self@.space;
            assert(sp =~= spec_write(old(self)@.space, dest.start as int, src@.push(0u8)));
            assert(sp.subrange(dest.start as int, dest.start + dest.len) =~= src@.push(0u8));
            assert(sp.take(old(self)@.f as int) =~= old(self)@.space.take(old(self)@.f as int));
        }
        Ok(dest)
    }

    /// Copy a string into the workspace, as UTF-8 bytes.
    pub fn copy_str(&mut self, src: &str) -> (r: Result<WsBuf, String>)
        requires
            old(self)@.wf(),
            alloc_size_ok(src.spec_bytes().len()),
        ensures
            final(self)@.wf(),
            match (r, spec_alloc(old(self)@, src.spec_bytes().len())) {
                (Ok(b), Ok((v, c))) => b == c && final(self)@.f == v.f && final(self)@.e == v.e
                    && final(self)@.space.len() == old(self)@.space.len()
                    && final(self)@.bytes(b) == src.spec_bytes()
                    && final(self)@.space == spec_write(old(self)@.space, b.start as int, src.spec_bytes())
                    && final(self)@.space.take(old(self)@.f as int) == old(self)@.space.take(old(self)@.f as int),
                (Err(m), Err(n)) => m@ == n && final(self)@ == old(self)@,
                _ => false,
            },
    {
        self.copy_bytes(src.as_bytes())
    }
}

/// The free region of a workspace, reserved whole: it can be written from its front, then
/// released, keeping what was written and as many bytes more as asked; what is not kept goes
/// back to the workspace.
pub struct ReservedBuf {
    start: usize,
    cap: usize,
    written: usize,
}

/// The view of a [`ReservedBuf`]: where the reserved region starts, how many bytes it spans, and
/// how many of them were written from its start.
pub struct ReservedView {
    pub start: nat,
    pub cap: nat,
    pub written: nat,
}

impl View for ReservedBuf {
    type V = ReservedView;

    closed spec fn view(&self) -> ReservedView {
        ReservedView { start: self.start as nat, cap: self.cap as nat, written: self.written as nat }
    }
}

impl ReservedView {
    /// The reservation is of the free part of `w`.
    pub open spec fn of(self, w: WsView) -> bool {
        &&& self.start == w.f
        &&& self.start + self.cap == w.e
        &&& self.written <= self.cap
    }
}

impl ReservedBuf {
    /// The number of bytes still free to write in the reservation.
    pub fn len(&self) -> (r: usize)
        requires
            self@.written <= self@.cap,
        ensures
            r == self@.cap - self@.written,
    {
        self.cap - self.written
    }
}

impl WS {
    /// Reserve all the free space of the workspace, to be written and then released.
    pub fn reserve(&self) -> (r: ReservedBuf)
        requires
            self@.wf(),
        ensures
            r@ == (ReservedView { start: self@.f, cap: (self@.e - self@.f) as nat, written: 0 }),
    {
        ReservedBuf { start: self.f, cap: self.e - self.f, written: 0 }
    }

    /// Write `data` at the front of what is still free in the reservation, as much of it as
    /// fits; the number of bytes written is returned.
    pub fn write_reserved(&mut self, res: &mut ReservedBuf, data: &[u8]) -> (n: usize)
        requires
            old(self)@.wf(),
            old(res)@.of(old(self)@),
        ensures
            n == if data@.len() <= old(res)@.cap - old(res)@.written { data@.len() } else { (old(res)@.cap - old(res)@.written) as nat },
            final(res)@ == (ReservedView { written: (old(res)@.written + n) as nat, ..old(res)@ }),
            final(self)@ == (WsView {
                space: spec_write(old(self)@.space, (old(res)@.start + old(res)@.written) as int, data@.take(n as int)),
                ..old(self)@
            }),
            final(res)@.of(final(self)@),
            final(self)@.wf(),
    {
        let free = res.cap - res.written;
        let n = if data.len() <= free { data.len() } else { free };
        let part = &data[0..n];
        assert(part@ =~= data@.take(n as int));
        self.write_at(res.start + res.written, part);
        res.written = res.written + n;
        proof {
            assert(self@.space =~= spec_write(old(self)@.space, (old(res)@.start + old(res)@.written) as int, data@.take(n as int)));
        }
        n
    }

    /// End the reservation, keeping what was written and `sz` bytes more: the slice kept is
    /// returned, and the free part of the workspace starts right after it.
    pub fn release(&mut self, res: ReservedBuf, sz: usize) -> (r: WsBuf)
        requires
            old(self)@.wf(),
            res@.of(old(self)@),
            res@.written + sz <= res@.cap,
        ensures
            r == (WsBuf { start: res@.start as usize, len: (res@.written + sz) as usize }),
            final(self)@ == (WsView { f: (old(self)@.f + res@.written + sz) as nat, ..old(self)@ }),
            final(self)@.wf(),
    {
        let len = res.written + sz;
        self.f = self.f + len;
        WsBuf { start: res.start, len }
    }
}

/// A workspace with its own region, for tests.
pub struct TestWS {
    ws: WS,
}

impl TestWS {
    /// A workspace over a zeroed region of `sz` bytes, whose usable part is `sz` rounded down to
    /// the alignment of a pointer.
    pub fn new(sz: usize) -> (r: Self)
        ensures
            r.view().space == Seq::new(sz as nat, |i: int| 0u8),
            r.view().f == 0,
            r.view().e == (sz as nat) / ws_align() * ws_align(),
            r.view().wf(),
    {
        let al = align();
        proof {
            assert((sz as nat) / (al as nat) * (al as nat) <= sz) by (nonlinear_arith)
                requires al > 0;
        }
        let aligned_sz = (sz / al) * al;
        let mut space: Vec<u8> = Vec::new();
        let mut i: usize = 0;
        while i < sz
            invariant
                i <= sz,
                space@ == Seq::new(i as nat, |k: int| 0u8),
            decreases sz - i,
        {
            space.push(0u8);
            i = i + 1;
            assert(space@ =~= Seq::new(i as nat, |k: int| 0u8));
        }
        TestWS { ws: WS { space, f: 0, e: aligned_sz } }
    }

    /// The view of the workspace.
    pub closed spec fn view(&self) -> WsView {
        self.ws@
    }

    /// The workspace itself, with its region.
    pub fn into_ws(self) -> (r: WS)
        ensures
            r@ == self.view(),
    {
        self.ws
    }

    /// The workspace, to allocate from.
    pub fn ws(&mut self) -> (r: &mut WS)
        ensures
            r@ == old(self).view(),
            final(self).view() == final(r)@,
    {
        &mut self.ws
    }
}

/// Successive allocations never overlap, stay inside the workspace, and leave the bytes before
/// them as they were; an allocation fails exactly when the rest of the workspace is smaller than
/// its size rounded up.
pub proof fn lemma_allocations_disjoint(v: WsView, a: nat, b: nat)
    requires
        v.wf(),
        alloc_size_ok(a),
        alloc_size_ok(b),
    ensures
        spec_alloc(v, a) is Err <==> v.e - v.f < round_up(a),
        spec_alloc(v, a) matches Ok((v1, b1)) ==> {
            &&& v1.wf()
            &&& v.f <= b1.start && b1.start + b1.len <= v1.f
            &&& v1.space == v.space
            &&& spec_alloc(v1, b) matches Ok((v2, b2)) ==> b1.start + b1.len <= b2.start
                && b2.start + b2.len <= v2.f <= v2.e
        },
{
    lemma_round_up(a, ws_align());
    lemma_round_up(b, ws_align());
}

} // verus!
