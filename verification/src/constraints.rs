//! The comparison operators that bound an objective.

use vstd::prelude::*;

verus! {

/// A comparison between an objective value and its bound.
pub trait ComparisonFn {
    /// Whether the comparison holds of `a` and `b`.
    spec fn holds(&self, a: int, b: int) -> bool;

    fn compare(&self, a: i64, b: i64) -> (r: bool)
        ensures
            r == self.holds(a as int, b as int),
    ;
}

pub struct LessThan;

impl ComparisonFn for LessThan {
    open spec fn holds(&self, a: int, b: int) -> bool {
        a < b
    }

    fn compare(&self, a: i64, b: i64) -> (r: bool) {
        a < b
    }
}

pub struct GreaterThan;

impl ComparisonFn for GreaterThan {
    open spec fn holds(&self, a: int, b: int) -> bool {
        a > b
    }

    fn compare(&self, a: i64, b: i64) -> (r: bool) {
        a > b
    }
}

pub struct LessThanOrEqual;

impl ComparisonFn for LessThanOrEqual {
    open spec fn holds(&self, a: int, b: int) -> bool {
        a <= b
    }

    fn compare(&self, a: i64, b: i64) -> (r: bool) {
        a <= b
    }
}

pub struct GreaterThanOrEqual;

impl ComparisonFn for GreaterThanOrEqual {
    open spec fn holds(&self, a: int, b: int) -> bool {
        a >= b
    }

    fn compare(&self, a: i64, b: i64) -> (r: bool) {
        a >= b
    }
}

pub struct Equal;

impl ComparisonFn for Equal {
    open spec fn holds(&self, a: int, b: int) -> bool {
        a == b
    }

    fn compare(&self, a: i64, b: i64) -> (r: bool) {
        a == b
    }
}

pub struct NotEqual;

impl ComparisonFn for NotEqual {
    open spec fn holds(&self, a: int, b: int) -> bool {
        a != b
    }

    fn compare(&self, a: i64, b: i64) -> (r: bool) {
        a != b
    }
}

/// One of the six comparisons, as a value.
#[derive(Debug, Clone, Copy, PartialEq, Eq, Structural)]
pub enum ComparisonOperator {
    LessThan,
    GreaterThan,
    LessThanOrEqual,
    GreaterThanOrEqual,
    Equal,
    NotEqual,
}

impl ComparisonFn for ComparisonOperator {
    open spec fn holds(&self, a: int, b: int) -> bool {
        match self {
            ComparisonOperator::LessThan => a < b,
            ComparisonOperator::GreaterThan => a > b,
            ComparisonOperator::LessThanOrEqual => a <= b,
            ComparisonOperator::GreaterThanOrEqual => a >= b,
            ComparisonOperator::Equal => a == b,
            ComparisonOperator::NotEqual => a != b,
        }
    }

    fn compare(&self, a: i64, b: i64) -> (r: bool) {
        match self {
            ComparisonOperator::LessThan => LessThan.compare(a, b),
            ComparisonOperator::GreaterThan => GreaterThan.compare(a, b),
            ComparisonOperator::LessThanOrEqual => LessThanOrEqual.compare(a, b),
            ComparisonOperator::GreaterThanOrEqual => GreaterThanOrEqual.compare(a, b),
            ComparisonOperator::Equal => Equal.compare(a, b),
            ComparisonOperator::NotEqual => NotEqual.compare(a, b),
        }
    }
}

/// The comparison that a symbol names: `<`, `>`, `<=`, `>=`, `==` or `!=`.
/// Any other text names none.
pub open spec fn operator_of(symbol: Seq<char>) -> Option<ComparisonOperator> {
    if symbol.len() == 1 && symbol[0] == '<' {
        Some(ComparisonOperator::LessThan)
    } else if symbol.len() == 1 && symbol[0] == '>' {
        Some(ComparisonOperator::GreaterThan)
    } else if symbol.len() == 2 && symbol[0] == '<' && symbol[1] == '=' {
        Some(ComparisonOperator::LessThanOrEqual)
    } else if symbol.len() == 2 && symbol[0] == '>' && symbol[1] == '=' {
        Some(ComparisonOperator::GreaterThanOrEqual)
    } else if symbol.len() == 2 && symbol[0] == '=' && symbol[1] == '=' {
        Some(ComparisonOperator::Equal)
    } else if symbol.len() == 2 && symbol[0] == '!' && symbol[1] == '=' {
        Some(ComparisonOperator::NotEqual)
    } else {
        None
    }
}

/// The table from operator symbols to comparisons. Its content is fixed, so
/// it holds no state.
pub struct ComparisonFunctions {}

impl ComparisonFunctions {
    pub fn new() -> (r: Self) {
        ComparisonFunctions {  }
    }

    /// The comparison that `symbol` names, if it names one.
    pub fn get(&self, symbol: &str) -> (r: Option<ComparisonOperator>)
        ensures
            r == operator_of(symbol@),
    {
        let n: usize = symbol.unicode_len();
        if n == 1 {
            let c: char = symbol.get_char(0);
            if c == '<' {
                Some(ComparisonOperator::LessThan)
            } else if c == '>' {
                Some(ComparisonOperator::GreaterThan)
            } else {
                None
            }
        } else if n == 2 {
            let c: char = symbol.get_char(0);
            let d: char = symbol.get_char(1);
            if d != '=' {
                None
            } else if c == '<' {
                Some(ComparisonOperator::LessThanOrEqual)
            } else if c == '>' {
                Some(ComparisonOperator::GreaterThanOrEqual)
            } else if c == '=' {
                Some(ComparisonOperator::Equal)
            } else if c == '!' {
                Some(ComparisonOperator::NotEqual)
            } else {
                None
            }
        } else {
            None
        }
    }
}

} // verus!
