//! One benchmark case: the CPU copy, the case matrix, the steps around the
//! two timed copies, and the record that comes out.
//!
//! A case runs in a fixed order. The buffers are prepared, the DMA copy is
//! timed, its result is checked and wiped, the CPU copy is timed, its result
//! is checked, and the record is made. The two timed copies are the caller's
//! part; each step here hands back what the next one needs, so the steps
//! cannot be taken out of order.

use vstd::prelude::*;
use crate::buffer::{clear, holds_pattern, pattern, pattern_byte, validate, zeros};
use crate::element::{ElemType, Element};
use crate::transfer::spec_derive;
use vstd::layout::size_of;

verus! {

/// What to measure: how many elements, and of which types.
#[derive(Clone, Copy, PartialEq, Eq, Debug, Structural)]
pub struct BenchCase {
    pub count: usize,
    pub src_ty: ElemType,
    pub dst_ty: ElemType,
}

/// The outcome of one case.
#[derive(Clone, Copy, PartialEq, Eq, Debug, Structural)]
pub struct BenchRecord {
    pub count: usize,
    pub src_ty: ElemType,
    pub dst_ty: ElemType,
    pub dma_cycles: u32,
    pub dma_cycles_per_8_bytes: u64,
    pub cpu_cycles: u32,
    pub cpu_cycles_per_8_bytes: u64,
}

/// Which of the two copies left wrong data in the destination.
#[derive(Clone, Copy, PartialEq, Eq, Debug, Structural)]
pub enum Failure {
    DmaMismatch,
    CpuMismatch,
}

/// Cycles spent per eight bytes read from a source of `count` elements of
/// type `ty`, rounded down.
pub open spec fn spec_cycles_per_8_bytes(cycles: u32, count: usize, ty: ElemType) -> nat {
    ((cycles * 8) / (count * ty.spec_width())) as nat
}

/// The record of a case from its two cycle counts.
pub open spec fn spec_record(case: BenchCase, dma_cycles: u32, cpu_cycles: u32) -> BenchRecord {
    BenchRecord {
        count: case.count,
        src_ty: case.src_ty,
        dst_ty: case.dst_ty,
        dma_cycles,
        dma_cycles_per_8_bytes: spec_cycles_per_8_bytes(dma_cycles, case.count, case.src_ty) as u64,
        cpu_cycles,
        cpu_cycles_per_8_bytes: spec_cycles_per_8_bytes(cpu_cycles, case.count, case.src_ty) as u64,
    }
}

/// The destination after copying `src` into the front of `dst`: each source
/// element converted to the destination type, narrowing or widening as the
/// types ask, followed by what `dst` held beyond the source's length.
pub open spec fn copied<S: Element, D: Element>(src: Seq<S>, dst: Seq<D>) -> Seq<D> {
    Seq::new(
        dst.len(),
        |i: int|
            if i < src.len() {
                D::spec_narrow(src[i].value() as u32)
            } else {
                dst[i]
            },
    )
}

/// The buffer sizes of the benchmark, in the order they are run.
pub open spec fn spec_buffer_sizes() -> Seq<usize> {
    seq![32, 64, 128, 256, 512, 1024, 2048]
}

/// The element types, in the order they are paired.
pub open spec fn spec_elem_types() -> Seq<ElemType> {
    seq![ElemType::U8, ElemType::U16, ElemType::U32]
}

/// All cases for the given sizes: for each size in turn, every ordered pair
/// of element types, the source type changing slowest.
pub open spec fn spec_cases(sizes: Seq<usize>) -> Seq<BenchCase> {
    Seq::new(
        sizes.len() * 9,
        |i: int|
            BenchCase {
                count: sizes[i / 9],
                src_ty: spec_elem_types()[(i % 9) / 3],
                dst_ty: spec_elem_types()[i % 3],
            },
    )
}

/// Cycles spent per eight bytes read from the source, rounded down.
pub fn cycles_per_8_bytes(cycles: u32, count: usize, ty: ElemType) -> (rate: u64)
    requires
        count > 0,
    ensures
        rate == spec_cycles_per_8_bytes(cycles, count, ty),
{
    let width: usize = ty.width();
    assert(1 <= count * width <= 4 * count) by (nonlinear_arith)
        requires
            1 <= width <= 4,
            count >= 1,
    ;
    let moved: u128 = (count as u128) * (width as u128);
    let scaled: u128 = (cycles as u128) * 8;
    assert(scaled / moved <= scaled) by (nonlinear_arith)
        requires
            moved >= 1,
            scaled >= 0,
    ;
    (scaled / moved) as u64
}

/// Copies `src` to the front of `dst` with the CPU, converting each element
/// to the destination type.
pub fn cpu_copy<S: Element, D: Element>(src: &[S], dst: &mut [D])
    requires
        src@.len() <= old(dst)@.len(),
    ensures
        final(dst)@ == copied(src@, old(dst)@),
{
    let n: usize = src.len();
    let mut i: usize = 0;
    while i < n
        invariant
            i <= n,
            n == src@.len(),
            dst@.len() == old(dst)@.len(),
            n <= dst@.len(),
            forall|j: int| 0 <= j < i ==> dst@[j] == D::spec_narrow(src@[j].value() as u32),
            forall|j: int| i <= j < dst@.len() ==> dst@[j] == old(dst)@[j],
        decreases n - i,
    {
        dst[i] = D::narrow(src[i].widen());
        i += 1;
    }
    assert(dst@ =~= copied(src@, old(dst)@));
}

/// The buffer sizes of the benchmark, in the order they are run.
pub fn buffer_sizes() -> (sizes: [usize; 7])
    ensures
        sizes@ == spec_buffer_sizes(),
{
    let sizes: [usize; 7] = [32, 64, 128, 256, 512, 1024, 2048];
    assert(sizes@ =~= spec_buffer_sizes());
    sizes
}

/// The element types, in the order they are paired.
pub fn elem_types() -> (types: [ElemType; 3])
    ensures
        types@ == spec_elem_types(),
{
    let types: [ElemType; 3] = [ElemType::U8, ElemType::U16, ElemType::U32];
    assert(types@ =~= spec_elem_types());
    types
}

/// Lists the cases for the given sizes in the order they are run.
pub fn bench_cases(sizes: &[usize]) -> (cases: Vec<BenchCase>)
    ensures
        cases@ == spec_cases(sizes@),
{
    let types: [ElemType; 3] = elem_types();
    let mut cases: Vec<BenchCase> = Vec::new();
    let mut s: usize = 0;
    while s < sizes.len()
        invariant
            s <= sizes@.len(),
            types@ == spec_elem_types(),
            cases@.len() == s * 9,
            forall|i: int| 0 <= i < cases@.len() ==> cases@[i] == spec_cases(sizes@)[i],
        decreases sizes@.len() - s,
    {
        let mut a: usize = 0;
        while a < 3
            invariant
                a <= 3,
                s < sizes@.len(),
                types@ == spec_elem_types(),
                cases@.len() == s * 9 + a * 3,
                forall|i: int| 0 <= i < cases@.len() ==> cases@[i] == spec_cases(sizes@)[i],
            decreases 3 - a,
        {
            let mut b: usize = 0;
            while b < 3
                invariant
                    b <= 3,
                    a < 3,
                    s < sizes@.len(),
                    types@ == spec_elem_types(),
                    cases@.len() == s * 9 + a * 3 + b,
                    forall|i: int| 0 <= i < cases@.len() ==> cases@[i] == spec_cases(sizes@)[i],
                decreases 3 - b,
            {
                cases.push(BenchCase { count: sizes[s], src_ty: types[a], dst_ty: types[b] });
                b += 1;
            }
            a += 1;
        }
        s += 1;
    }
    assert(cases@ =~= spec_cases(sizes@));
    cases
}

/// A case whose buffers are prepared and whose DMA copy is due.
pub struct DmaPending {
    case: BenchCase,
}

/// A case whose DMA copy was good and whose CPU copy is due.
pub struct CpuPending {
    case: BenchCase,
    dma_cycles: u32,
}

impl DmaPending {
    #[verifier::type_invariant]
    spec fn nonempty(self) -> bool {
        self.case.count > 0
    }

    /// The case being run.
    pub closed spec fn case(self) -> BenchCase {
        self.case
    }

    /// Takes the cycle count of the DMA copy and checks what the copy left
    /// in `dst`. A destination that holds the pattern is wiped for the CPU
    /// copy. Any other is left as it is for inspection, and the case fails.
    pub fn dma_done<D: Element>(self, dst: &mut [D], dma_cycles: u32) -> (r: Result<
        CpuPending,
        Failure,
    >)
        ensures
            holds_pattern(old(dst)@) ==> r is Ok && r->Ok_0.case() == self.case()
                && r->Ok_0.dma_cycles() == dma_cycles && final(dst)@ == zeros::<D>(
                old(dst)@.len(),
            ),
            !holds_pattern(old(dst)@) ==> r == Err::<CpuPending, Failure>(Failure::DmaMismatch)
                && final(dst)@ == old(dst)@,
    {
        proof {
            use_type_invariant(&self);
        }
        if validate(dst) {
            clear(dst);
            Ok(CpuPending { case: self.case, dma_cycles })
        } else {
            Err(Failure::DmaMismatch)
        }
    }
}

impl CpuPending {
    #[verifier::type_invariant]
    spec fn nonempty(self) -> bool {
        self.case.count > 0
    }

    /// The case being run.
    pub closed spec fn case(self) -> BenchCase {
        self.case
    }

    /// The cycle count of the DMA copy.
    pub closed spec fn dma_cycles(self) -> u32 {
        self.dma_cycles
    }

    /// Takes the cycle count of the CPU copy and checks what the copy left
    /// in `dst`. A destination that holds the pattern completes the case
    /// with its record; any other fails it.
    pub fn cpu_done<D: Element>(self, dst: &[D], cpu_cycles: u32) -> (r: Result<
        BenchRecord,
        Failure,
    >)
        ensures
            r == if holds_pattern(dst@) {
                Ok::<BenchRecord, Failure>(spec_record(self.case(), self.dma_cycles(), cpu_cycles))
            } else {
                Err::<BenchRecord, Failure>(Failure::CpuMismatch)
            },
    {
        proof {
            use_type_invariant(&self);
        }
        if validate(dst) {
            Ok(make_record(self.case, self.dma_cycles, cpu_cycles))
        } else {
            Err(Failure::CpuMismatch)
        }
    }
}

/// Makes the record of a case from its two cycle counts.
pub fn make_record(case: BenchCase, dma_cycles: u32, cpu_cycles: u32) -> (record: BenchRecord)
    requires
        case.count > 0,
    ensures
        record == spec_record(case, dma_cycles, cpu_cycles),
{
    BenchRecord {
        count: case.count,
        src_ty: case.src_ty,
        dst_ty: case.dst_ty,
        dma_cycles,
        dma_cycles_per_8_bytes: cycles_per_8_bytes(dma_cycles, case.count, case.src_ty),
        cpu_cycles,
        cpu_cycles_per_8_bytes: cycles_per_8_bytes(cpu_cycles, case.count, case.src_ty),
    }
}

/// Starts a case: fills `src` with the pattern and wipes `dst`.
///
/// The source must hold at least one element, since cycles are reported per
/// byte read.
pub fn prepare<S: Element, D: Element>(src: &mut [S], dst: &mut [D]) -> (run: DmaPending)
    requires
        old(src)@.len() > 0,
    ensures
        final(src)@ == pattern::<S>(old(src)@.len()),
        final(dst)@ == zeros::<D>(old(dst)@.len()),
        run.case() == (BenchCase {
            count: old(src)@.len() as usize,
            src_ty: S::spec_elem_type(),
            dst_ty: D::spec_elem_type(),
        }),
{
    crate::buffer::set(src);
    clear(dst);
    DmaPending { case: BenchCase { count: src.len(), src_ty: S::elem_type(), dst_ty: D::elem_type() } }
}

/// Buffers of equal length made of element types can always be transferred:
/// configuring the channel for a benchmark case never fails.
pub proof fn lemma_elements_always_transfer<S: Element, D: Element>(
    src_addr: u32,
    dst_addr: u32,
    len: usize,
)
    ensures
        spec_derive(
            src_addr,
            size_of::<S>() as usize,
            len,
            dst_addr,
            size_of::<D>() as usize,
            len,
        ) is Ok,
{
    S::lemma_size_is_width();
    D::lemma_size_is_width();
}

/// Copying a buffer that holds the pattern leaves the pattern in the
/// destination, whatever the two element types: every pattern value fits
/// the narrowest type.
pub proof fn lemma_copy_keeps_pattern<S: Element, D: Element>(len: nat, dst: Seq<D>)
    requires
        dst.len() == len,
    ensures
        holds_pattern(copied(pattern::<S>(len), dst)),
{
    assert forall|i: int| 0 <= i < len implies copied(pattern::<S>(len), dst)[i] == pattern::<D>(
        len,
    )[i] by {
        S::lemma_narrow_value(pattern_byte(i));
    }
    assert(copied(pattern::<S>(len), dst) =~= pattern::<D>(len));
}

} // verus!
