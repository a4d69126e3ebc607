//! Comparison and copying of values by their deep views.
use vstd::prelude::*;

verus! {

/// A type whose values can be compared by their deep views.
pub trait Same: DeepView {
    /// Whether the two values have the same deep view.
    fn same(&self, other: &Self) -> (r: bool)
        ensures
            r == (self.deep_view() == other.deep_view()),
    ;
}

impl Same for bool {
    fn same(&self, other: &Self) -> (r: bool) {
        *self == *other
    }
}

impl Same for u8 {
    fn same(&self, other: &Self) -> (r: bool) {
        *self == *other
    }
}

impl Same for u32 {
    fn same(&self, other: &Self) -> (r: bool) {
        *self == *other
    }
}

impl Same for i32 {
    fn same(&self, other: &Self) -> (r: bool) {
        *self == *other
    }
}

impl Same for i64 {
    fn same(&self, other: &Self) -> (r: bool) {
        *self == *other
    }
}

impl Same for u16 {
    fn same(&self, other: &Self) -> (r: bool) {
        *self == *other
    }
}

impl Same for u64 {
    fn same(&self, other: &Self) -> (r: bool) {
        *self == *other
    }
}

impl Same for u128 {
    fn same(&self, other: &Self) -> (r: bool) {
        *self == *other
    }
}

impl Same for usize {
    fn same(&self, other: &Self) -> (r: bool) {
        *self == *other
    }
}

impl Same for char {
    fn same(&self, other: &Self) -> (r: bool) {
        *self == *other
    }
}

impl Same for [u8; 8] {
    fn same(&self, other: &Self) -> (r: bool) {
        let mut i: usize = 0;
        while i < 8
            invariant
                i <= 8,
                forall|j: int| 0 <= j < i ==> self@[j] == other@[j],
            decreases 8 - i,
        {
            if self[i] != other[i] {
                assert(self.deep_view()[i as int] != other.deep_view()[i as int]);
                return false;
            }
            i = i + 1;
        }
        assert(self.deep_view() =~= other.deep_view());
        true
    }
}

impl Same for String {
    fn same(&self, other: &Self) -> (r: bool) {
        *self == *other
    }
}

impl<T: Same> Same for Box<T> {
    fn same(&self, other: &Self) -> (r: bool) {
        (**self).same(&**other)
    }
}

impl<T: Same> Same for Option<T> {
    fn same(&self, other: &Self) -> (r: bool) {
        match (self, other) {
            (None, None) => true,
            (Some(a), Some(b)) => a.same(b),
            _ => false,
        }
    }
}

impl<A: Same, B: Same> Same for (A, B) {
    fn same(&self, other: &Self) -> (r: bool) {
        self.0.same(&other.0) && self.1.same(&other.1)
    }
}

impl<T: Same> Same for Vec<T> {
    fn same(&self, other: &Self) -> (r: bool) {
        if self.len() != other.len() {
            assert(self.deep_view().len() != other.deep_view().len());
            return false;
        }
        let mut i: usize = 0;
        while i < self.len()
            invariant
                i <= self.len(),
                self.len() == other.len(),
                forall|j: int|
                    0 <= j < i ==> (#[trigger] self@[j]).deep_view() == other@[j].deep_view(),
            decreases self.len() - i,
        {
            if !self[i].same(&other[i]) {
                assert(self.deep_view()[i as int] != other.deep_view()[i as int]);
                return false;
            }
            i = i + 1;
        }
        assert(self.deep_view() =~= other.deep_view());
        true
    }
}

/// A type whose values can be copied with their deep views.
pub trait Duplicate: DeepView + Sized {
    /// A value with the same deep view.
    fn dup(&self) -> (r: Self)
        ensures
            r.deep_view() == self.deep_view(),
    ;
}

impl Duplicate for bool {
    fn dup(&self) -> (r: Self) {
        *self
    }
}

impl Duplicate for u8 {
    fn dup(&self) -> (r: Self) {
        *self
    }
}

impl Duplicate for u16 {
    fn dup(&self) -> (r: Self) {
        *self
    }
}

impl Duplicate for u32 {
    fn dup(&self) -> (r: Self) {
        *self
    }
}

impl Duplicate for u64 {
    fn dup(&self) -> (r: Self) {
        *self
    }
}

impl Duplicate for u128 {
    fn dup(&self) -> (r: Self) {
        *self
    }
}

impl Duplicate for usize {
    fn dup(&self) -> (r: Self) {
        *self
    }
}

impl Duplicate for i32 {
    fn dup(&self) -> (r: Self) {
        *self
    }
}

impl Duplicate for i64 {
    fn dup(&self) -> (r: Self) {
        *self
    }
}

impl Duplicate for char {
    fn dup(&self) -> (r: Self) {
        *self
    }
}

impl Duplicate for [u8; 8] {
    fn dup(&self) -> (r: Self) {
        *self
    }
}

impl Duplicate for String {
    fn dup(&self) -> (r: Self) {
        self.clone()
    }
}

impl<T: Duplicate> Duplicate for Box<T> {
    fn dup(&self) -> (r: Self) {
        Box::new((**self).dup())
    }
}

impl<T: Duplicate> Duplicate for Option<T> {
    fn dup(&self) -> (r: Self) {
        match self {
            None => None,
            Some(a) => Some(a.dup()),
        }
    }
}

impl<T: Duplicate> Duplicate for Vec<T> {
    fn dup(&self) -> (r: Self) {
        let mut out: Vec<T> = Vec::new();
        let mut i: usize = 0;
        while i < self.len()
            invariant
                i <= self.len(),
                out.len() == i,
                forall|j: int|
                    0 <= j < i ==> (#[trigger] out@[j]).deep_view() == self@[j].deep_view(),
            decreases self.len() - i,
        {
            out.push(self[i].dup());
            i = i + 1;
        }
        assert(out.deep_view() =~= self.deep_view());
        out
    }
}

} // verus!
