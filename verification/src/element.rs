//! The unsigned integer types a benchmark buffer can be made of.

use vstd::prelude::*;
use vstd::layout::{layout_of_primitives, size_of};

verus! {

/// Names one of the three element types at run time.
#[derive(Clone, Copy, PartialEq, Eq, Debug, Structural)]
pub enum ElemType {
    U8,
    U16,
    U32,
}

impl ElemType {
    /// Size of one element in bytes.
    pub open spec fn spec_width(self) -> nat {
        match self {
            ElemType::U8 => 1,
            ElemType::U16 => 2,
            ElemType::U32 => 4,
        }
    }

    /// How many values the type has: 2 to the power of its width in bits.
    pub open spec fn modulus(self) -> nat {
        match self {
            ElemType::U8 => 0x100,
            ElemType::U16 => 0x1_0000,
            ElemType::U32 => 0x1_0000_0000,
        }
    }

    /// The type's name as it is written in source text.
    pub open spec fn spec_name(self) -> Seq<char> {
        match self {
            ElemType::U8 => "u8"@,
            ElemType::U16 => "u16"@,
            ElemType::U32 => "u32"@,
        }
    }

    /// Size of one element in bytes.
    pub fn width(self) -> (w: usize)
        ensures
            w == self.spec_width(),
    {
        match self {
            ElemType::U8 => 1,
            ElemType::U16 => 2,
            ElemType::U32 => 4,
        }
    }

    /// The type's name as it is written in source text.
    pub fn name(self) -> (s: &'static str)
        ensures
            s@ == self.spec_name(),
    {
        match self {
            ElemType::U8 => "u8",
            ElemType::U16 => "u16",
            ElemType::U32 => "u32",
        }
    }
}

/// An unsigned integer of one, two or four bytes, seen through its numeric
/// value. Converting between element types goes through `u32`, which holds
/// every value of every element type.
pub trait Element: Copy {
    /// Which of the three types this is.
    spec fn spec_elem_type() -> ElemType;

    /// The number the element stands for.
    spec fn value(self) -> nat;

    /// The element that keeps the low bits of `v`.
    spec fn spec_narrow(v: u32) -> Self;

    /// Which of the three types this is.
    fn elem_type() -> (t: ElemType)
        ensures
            t == Self::spec_elem_type(),
    ;

    /// Converts `v` to this type, dropping the bits that do not fit.
    fn narrow(v: u32) -> (e: Self)
        ensures
            e == Self::spec_narrow(v),
    ;

    /// The element's value as a `u32`.
    fn widen(self) -> (v: u32)
        ensures
            v == self.value(),
    ;

    /// Narrowing keeps the value modulo the size of the type.
    proof fn lemma_narrow_value(v: u32)
        ensures
            Self::spec_narrow(v).value() == v as nat % Self::spec_elem_type().modulus(),
    ;

    /// Two elements with the same value are the same element.
    proof fn lemma_value_injective(a: Self, b: Self)
        requires
            a.value() == b.value(),
        ensures
            a == b,
    ;

    /// An element takes up as many bytes of memory as its type is wide.
    proof fn lemma_size_is_width()
        ensures
            size_of::<Self>() == Self::spec_elem_type().spec_width(),
    ;
}

impl Element for u8 {
    open spec fn spec_elem_type() -> ElemType {
        ElemType::U8
    }

    open spec fn value(self) -> nat {
        self as nat
    }

    open spec fn spec_narrow(v: u32) -> u8 {
        (v % 0x100) as u8
    }

    fn elem_type() -> ElemType {
        ElemType::U8
    }

    fn narrow(v: u32) -> u8 {
        (v % 0x100) as u8
    }

    fn widen(self) -> u32 {
        self as u32
    }

    proof fn lemma_narrow_value(v: u32) {
    }

    proof fn lemma_value_injective(a: u8, b: u8) {
    }

    proof fn lemma_size_is_width() {
        broadcast use layout_of_primitives;

    }
}

impl Element for u16 {
    open spec fn spec_elem_type() -> ElemType {
        ElemType::U16
    }

    open spec fn value(self) -> nat {
        self as nat
    }

    open spec fn spec_narrow(v: u32) -> u16 {
        (v % 0x1_0000) as u16
    }

    fn elem_type() -> ElemType {
        ElemType::U16
    }

    fn narrow(v: u32) -> u16 {
        (v % 0x1_0000) as u16
    }

    fn widen(self) -> u32 {
        self as u32
    }

    proof fn lemma_narrow_value(v: u32) {
    }

    proof fn lemma_value_injective(a: u16, b: u16) {
    }

    proof fn lemma_size_is_width() {
        broadcast use layout_of_primitives;

    }
}

impl Element for u32 {
    open spec fn spec_elem_type() -> ElemType {
        ElemType::U32
    }

    open spec fn value(self) -> nat {
        self as nat
    }

    open spec fn spec_narrow(v: u32) -> u32 {
        v
    }

    fn elem_type() -> ElemType {
        ElemType::U32
    }

    fn narrow(v: u32) -> u32 {
        v
    }

    fn widen(self) -> u32 {
        self
    }

    proof fn lemma_narrow_value(v: u32) {
    }

    proof fn lemma_value_injective(a: u32, b: u32) {
    }

    proof fn lemma_size_is_width() {
        broadcast use layout_of_primitives;

    }
}

} // verus!
