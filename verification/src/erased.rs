//! Type erasure for the registry.
//!
//! The Global Reference Tracker stores values of different types behind one
//! uniform container.  Instead of unchecked reinterpretation, erasure here
//! is a closed sum: a plain value enters the registry as an [`Erased`]
//! value carrying its [`TypeTag`], and retrieval downcasts by comparing
//! tags, reporting a mismatch as a typed error.  The [`Erasable`] trait
//! carries the proof obligations that make the downcast exact: a tag
//! identifies its type, and erasing then restoring is the identity.

use vstd::prelude::*;

verus! {

/// The identity a value keeps while it is stored type-erased.
#[derive(Clone, Copy, Debug, PartialEq, Eq, Structural)]
pub enum TypeTag {
    Bool,
    U8,
    U16,
    U32,
    U64,
    Usize,
    I32,
    I64,
    Text,
    Bytes,
}

/// A type-erased plain value.
pub enum Erased {
    Bool(bool),
    U8(u8),
    U16(u16),
    U32(u32),
    U64(u64),
    Usize(usize),
    I32(i32),
    I64(i64),
    Text(String),
    Bytes(Vec<u8>),
}

impl Erased {
    /// The tag of the type this value was erased from.
    pub open spec fn tag(self) -> TypeTag {
        match self {
            Erased::Bool(_) => TypeTag::Bool,
            Erased::U8(_) => TypeTag::U8,
            Erased::U16(_) => TypeTag::U16,
            Erased::U32(_) => TypeTag::U32,
            Erased::U64(_) => TypeTag::U64,
            Erased::Usize(_) => TypeTag::Usize,
            Erased::I32(_) => TypeTag::I32,
            Erased::I64(_) => TypeTag::I64,
            Erased::Text(_) => TypeTag::Text,
            Erased::Bytes(_) => TypeTag::Bytes,
        }
    }

    /// Read the tag.
    pub fn tag_of(&self) -> (t: TypeTag)
        ensures
            t == self.tag(),
    {
        match self {
            Erased::Bool(_) => TypeTag::Bool,
            Erased::U8(_) => TypeTag::U8,
            Erased::U16(_) => TypeTag::U16,
            Erased::U32(_) => TypeTag::U32,
            Erased::U64(_) => TypeTag::U64,
            Erased::Usize(_) => TypeTag::Usize,
            Erased::I32(_) => TypeTag::I32,
            Erased::I64(_) => TypeTag::I64,
            Erased::Text(_) => TypeTag::Text,
            Erased::Bytes(_) => TypeTag::Bytes,
        }
    }
}

/// A plain value that can enter the type-erased registry and be recovered
/// by a checked downcast.
pub trait Erasable: Sized {
    /// The tag that stands for this type among the erased values.
    spec fn tag() -> TypeTag;

    /// The erased form of a value of this type.
    spec fn erase_spec(self) -> Erased;

    /// What downcasting `e` to this type yields.
    spec fn restore_spec(e: Erased) -> Option<Self>;

    /// Law: erasure keeps the type's identity — an erased value carries
    /// this type's tag.
    proof fn lemma_erase_tags(x: Self)
        ensures
            x.erase_spec().tag() == Self::tag();

    /// Law: the downcast succeeds exactly on values erased from this type,
    /// as the tags tell them apart.
    proof fn lemma_restore_exact(e: Erased)
        ensures
            (e.tag() == Self::tag()) <==> Self::restore_spec(e) is Some;

    /// Law: round trip — erasing a value and restoring it yields the value
    /// back.
    proof fn lemma_erase_then_restore(x: Self)
        ensures
            Self::restore_spec(x.erase_spec()) == Some(x);

    /// Read this type's tag.
    fn tag_exec() -> (t: TypeTag)
        ensures
            t == Self::tag();

    /// Erase a value.
    fn erase(self) -> (e: Erased)
        ensures
            e == self.erase_spec(),
    ;

    /// Downcast an erased value; `None` reports a type mismatch.
    fn restore(e: Erased) -> (r: Option<Self>)
        ensures
            r == Self::restore_spec(e),
    ;
}

impl Erasable for bool {
    open spec fn tag() -> TypeTag {
        TypeTag::Bool
    }

    open spec fn erase_spec(self) -> Erased {
        Erased::Bool(self)
    }

    open spec fn restore_spec(e: Erased) -> Option<bool> {
        match e {
            Erased::Bool(v) => Some(v),
            _ => None,
        }
    }

    proof fn lemma_erase_tags(x: Self) {
    }

    proof fn lemma_restore_exact(e: Erased) {
    }

    proof fn lemma_erase_then_restore(x: Self) {
    }

    fn tag_exec() -> (t: TypeTag) {
        TypeTag::Bool
    }

    fn erase(self) -> (e: Erased) {
        Erased::Bool(self)
    }

    fn restore(e: Erased) -> (r: Option<bool>) {
        match e {
            Erased::Bool(v) => Some(v),
            _ => None,
        }
    }
}

impl Erasable for u8 {
    open spec fn tag() -> TypeTag {
        TypeTag::U8
    }

    open spec fn erase_spec(self) -> Erased {
        Erased::U8(self)
    }

    open spec fn restore_spec(e: Erased) -> Option<u8> {
        match e {
            Erased::U8(v) => Some(v),
            _ => None,
        }
    }

    proof fn lemma_erase_tags(x: Self) {
    }

    proof fn lemma_restore_exact(e: Erased) {
    }

    proof fn lemma_erase_then_restore(x: Self) {
    }

    fn tag_exec() -> (t: TypeTag) {
        TypeTag::U8
    }

    fn erase(self) -> (e: Erased) {
        Erased::U8(self)
    }

    fn restore(e: Erased) -> (r: Option<u8>) {
        match e {
            Erased::U8(v) => Some(v),
            _ => None,
        }
    }
}

impl Erasable for u16 {
    open spec fn tag() -> TypeTag {
        TypeTag::U16
    }

    open spec fn erase_spec(self) -> Erased {
        Erased::U16(self)
    }

    open spec fn restore_spec(e: Erased) -> Option<u16> {
        match e {
            Erased::U16(v) => Some(v),
            _ => None,
        }
    }

    proof fn lemma_erase_tags(x: Self) {
    }

    proof fn lemma_restore_exact(e: Erased) {
    }

    proof fn lemma_erase_then_restore(x: Self) {
    }

    fn tag_exec() -> (t: TypeTag) {
        TypeTag::U16
    }

    fn erase(self) -> (e: Erased) {
        Erased::U16(self)
    }

    fn restore(e: Erased) -> (r: Option<u16>) {
        match e {
            Erased::U16(v) => Some(v),
            _ => None,
        }
    }
}

impl Erasable for u32 {
    open spec fn tag() -> TypeTag {
        TypeTag::U32
    }

    open spec fn erase_spec(self) -> Erased {
        Erased::U32(self)
    }

    open spec fn restore_spec(e: Erased) -> Option<u32> {
        match e {
            Erased::U32(v) => Some(v),
            _ => None,
        }
    }

    proof fn lemma_erase_tags(x: Self) {
    }

    proof fn lemma_restore_exact(e: Erased) {
    }

    proof fn lemma_erase_then_restore(x: Self) {
    }

    fn tag_exec() -> (t: TypeTag) {
        TypeTag::U32
    }

    fn erase(self) -> (e: Erased) {
        Erased::U32(self)
    }

    fn restore(e: Erased) -> (r: Option<u32>) {
        match e {
            Erased::U32(v) => Some(v),
            _ => None,
        }
    }
}

impl Erasable for u64 {
    open spec fn tag() -> TypeTag {
        TypeTag::U64
    }

    open spec fn erase_spec(self) -> Erased {
        Erased::U64(self)
    }

    open spec fn restore_spec(e: Erased) -> Option<u64> {
        match e {
            Erased::U64(v) => Some(v),
            _ => None,
        }
    }

    proof fn lemma_erase_tags(x: Self) {
    }

    proof fn lemma_restore_exact(e: Erased) {
    }

    proof fn lemma_erase_then_restore(x: Self) {
    }

    fn tag_exec() -> (t: TypeTag) {
        TypeTag::U64
    }

    fn erase(self) -> (e: Erased) {
        Erased::U64(self)
    }

    fn restore(e: Erased) -> (r: Option<u64>) {
        match e {
            Erased::U64(v) => Some(v),
            _ => None,
        }
    }
}

impl Erasable for usize {
    open spec fn tag() -> TypeTag {
        TypeTag::Usize
    }

    open spec fn erase_spec(self) -> Erased {
        Erased::Usize(self)
    }

    open spec fn restore_spec(e: Erased) -> Option<usize> {
        match e {
            Erased::Usize(v) => Some(v),
            _ => None,
        }
    }

    proof fn lemma_erase_tags(x: Self) {
    }

    proof fn lemma_restore_exact(e: Erased) {
    }

    proof fn lemma_erase_then_restore(x: Self) {
    }

    fn tag_exec() -> (t: TypeTag) {
        TypeTag::Usize
    }

    fn erase(self) -> (e: Erased) {
        Erased::Usize(self)
    }

    fn restore(e: Erased) -> (r: Option<usize>) {
        match e {
            Erased::Usize(v) => Some(v),
            _ => None,
        }
    }
}

impl Erasable for i32 {
    open spec fn tag() -> TypeTag {
        TypeTag::I32
    }

    open spec fn erase_spec(self) -> Erased {
        Erased::I32(self)
    }

    open spec fn restore_spec(e: Erased) -> Option<i32> {
        match e {
            Erased::I32(v) => Some(v),
            _ => None,
        }
    }

    proof fn lemma_erase_tags(x: Self) {
    }

    proof fn lemma_restore_exact(e: Erased) {
    }

    proof fn lemma_erase_then_restore(x: Self) {
    }

    fn tag_exec() -> (t: TypeTag) {
        TypeTag::I32
    }

    fn erase(self) -> (e: Erased) {
        Erased::I32(self)
    }

    fn restore(e: Erased) -> (r: Option<i32>) {
        match e {
            Erased::I32(v) => Some(v),
            _ => None,
        }
    }
}

impl Erasable for i64 {
    open spec fn tag() -> TypeTag {
        TypeTag::I64
    }

    open spec fn erase_spec(self) -> Erased {
        Erased::I64(self)
    }

    open spec fn restore_spec(e: Erased) -> Option<i64> {
        match e {
            Erased::I64(v) => Some(v),
            _ => None,
        }
    }

    proof fn lemma_erase_tags(x: Self) {
    }

    proof fn lemma_restore_exact(e: Erased) {
    }

    proof fn lemma_erase_then_restore(x: Self) {
    }

    fn tag_exec() -> (t: TypeTag) {
        TypeTag::I64
    }

    fn erase(self) -> (e: Erased) {
        Erased::I64(self)
    }

    fn restore(e: Erased) -> (r: Option<i64>) {
        match e {
            Erased::I64(v) => Some(v),
            _ => None,
        }
    }
}

impl Erasable for String {
    open spec fn tag() -> TypeTag {
        TypeTag::Text
    }

    open spec fn erase_spec(self) -> Erased {
        Erased::Text(self)
    }

    open spec fn restore_spec(e: Erased) -> Option<String> {
        match e {
            Erased::Text(v) => Some(v),
            _ => None,
        }
    }

    proof fn lemma_erase_tags(x: Self) {
    }

    proof fn lemma_restore_exact(e: Erased) {
    }

    proof fn lemma_erase_then_restore(x: Self) {
    }

    fn tag_exec() -> (t: TypeTag) {
        TypeTag::Text
    }

    fn erase(self) -> (e: Erased) {
        Erased::Text(self)
    }

    fn restore(e: Erased) -> (r: Option<String>) {
        match e {
            Erased::Text(v) => Some(v),
            _ => None,
        }
    }
}

impl Erasable for Vec<u8> {
    open spec fn tag() -> TypeTag {
        TypeTag::Bytes
    }

    open spec fn erase_spec(self) -> Erased {
        Erased::Bytes(self)
    }

    open spec fn restore_spec(e: Erased) -> Option<Vec<u8>> {
        match e {
            Erased::Bytes(v) => Some(v),
            _ => None,
        }
    }

    proof fn lemma_erase_tags(x: Self) {
    }

    proof fn lemma_restore_exact(e: Erased) {
    }

    proof fn lemma_erase_then_restore(x: Self) {
    }

    fn tag_exec() -> (t: TypeTag) {
        TypeTag::Bytes
    }

    fn erase(self) -> (e: Erased) {
        Erased::Bytes(self)
    }

    fn restore(e: Erased) -> (r: Option<Vec<u8>>) {
        match e {
            Erased::Bytes(v) => Some(v),
            _ => None,
        }
    }
}

} // verus!
