use vstd::prelude::*;

verus! {

/// A range of delimited fields of a line. Positions are 1-based; a negative
/// position counts from the end (`-1` is the last field).
#[derive(Clone, Copy, Debug, PartialEq, Eq, Structural)]
pub enum FieldRange {
    /// Exactly one field.
    Single(i32),
    /// Every field up to and including the position.
    LeftInf(i32),
    /// Every field from the position on.
    RightInf(i32),
    /// Every field between the two positions, both included.
    Both(i32, i32),
}

/// A position as written, turned into a 1-based position among `count`
/// fields; 0 stands for "before the first field".
pub open spec fn resolve(pos: int, count: int) -> int {
    if pos < 0 {
        if pos + count + 1 < 0 {
            0
        } else {
            pos + count + 1
        }
    } else {
        pos
    }
}

impl FieldRange {
    /// The first 1-based position the range takes.
    pub open spec fn low(self, count: int) -> int {
        match self {
            FieldRange::Single(p) => resolve(p as int, count),
            FieldRange::LeftInf(_) => 1,
            FieldRange::RightInf(p) => resolve(p as int, count),
            FieldRange::Both(p, _) => resolve(p as int, count),
        }
    }

    /// The last 1-based position the range takes.
    pub open spec fn high(self, count: int) -> int {
        match self {
            FieldRange::Single(p) => resolve(p as int, count),
            FieldRange::LeftInf(p) => resolve(p as int, count),
            FieldRange::RightInf(_) => count,
            FieldRange::Both(_, p) => resolve(p as int, count),
        }
    }

    /// Whether the field at 0-based `index` of `count` fields is in the range.
    pub open spec fn takes(self, index: int, count: int) -> bool {
        &&& 0 <= index < count
        &&& self.low(count) <= index + 1 <= self.high(count)
    }

    /// Whether the field at 0-based `index` of `count` fields is in the range.
    pub fn covers(&self, index: usize, count: usize) -> (r: bool)
        ensures
            r == self.takes(index as int, count as int),
    {
        if index >= count {
            return false;
        }
        let pos: i128 = index as i128 + 1;
        let (low, high) = match *self {
            FieldRange::Single(p) => (resolve_exec(p, count), resolve_exec(p, count)),
            FieldRange::LeftInf(p) => (1i128, resolve_exec(p, count)),
            FieldRange::RightInf(p) => (resolve_exec(p, count), count as i128),
            FieldRange::Both(p, q) => (resolve_exec(p, count), resolve_exec(q, count)),
        };
        low <= pos && pos <= high
    }
}

fn resolve_exec(pos: i32, count: usize) -> (r: i128)
    ensures
        r == resolve(pos as int, count as int),
{
    if pos < 0 {
        let t: i128 = pos as i128 + count as i128 + 1;
        if t < 0 {
            0
        } else {
            t
        }
    } else {
        pos as i128
    }
}

/// Whether any of the ranges takes the field at `index` of `count` fields.
pub open spec fn any_takes(ranges: Seq<FieldRange>, index: int, count: int) -> bool {
    exists|j: int| 0 <= j < ranges.len() && (#[trigger] ranges[j]).takes(index, count)
}

/// Whether any of the ranges takes the field at `index` of `count` fields.
pub fn any_covers(ranges: &Vec<FieldRange>, index: usize, count: usize) -> (r: bool)
    ensures
        r == any_takes(ranges@, index as int, count as int),
{
    let mut j: usize = 0;
    while j < ranges.len()
        invariant
            j <= ranges@.len(),
            forall|k: int| 0 <= k < j ==> !(#[trigger] ranges@[k]).takes(index as int, count as int),
        decreases ranges@.len() - j,
    {
        if ranges[j].covers(index, count) {
            return true;
        }
        j += 1;
    }
    false
}

} // verus!
