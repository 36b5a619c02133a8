//! Price bars and the accessors through which the detector reads them.
use vstd::prelude::*;
use crate::price::Price;

verus! {

/// A value with a high price.
pub trait High {
    spec fn spec_high(&self) -> Price;

    fn high(&self) -> (r: Price)
        ensures
            r == self.spec_high(),
    ;
}

/// A value with a low price.
pub trait Low {
    spec fn spec_low(&self) -> Price;

    fn low(&self) -> (r: Price)
        ensures
            r == self.spec_low(),
    ;
}

/// A value with an opening price.
pub trait Open {
    spec fn spec_open(&self) -> Price;

    fn open(&self) -> (r: Price)
        ensures
            r == self.spec_open(),
    ;
}

/// A value with a closing price.
pub trait Close {
    spec fn spec_close(&self) -> Price;

    fn close(&self) -> (r: Price)
        ensures
            r == self.spec_close(),
    ;
}

/// A bar closed above its open.
pub open spec fn closed_up(open: Price, close: Price) -> bool {
    close.gt(open)
}

/// One price bar.
#[derive(Debug, Clone, Copy, PartialEq, Eq, Structural)]
pub struct Bar {
    pub open: Price,
    pub high: Price,
    pub low: Price,
    pub close: Price,
}

impl Bar {
    pub fn new(open: Price, high: Price, low: Price, close: Price) -> (r: Bar)
        ensures
            r == (Bar { open, high, low, close }),
    {
        Bar { open, high, low, close }
    }
}

impl High for Bar {
    open spec fn spec_high(&self) -> Price {
        self.high
    }

    fn high(&self) -> (r: Price) {
        self.high
    }
}

impl Low for Bar {
    open spec fn spec_low(&self) -> Price {
        self.low
    }

    fn low(&self) -> (r: Price) {
        self.low
    }
}

impl Open for Bar {
    open spec fn spec_open(&self) -> Price {
        self.open
    }

    fn open(&self) -> (r: Price) {
        self.open
    }
}

impl Close for Bar {
    open spec fn spec_close(&self) -> Price {
        self.close
    }

    fn close(&self) -> (r: Price) {
        self.close
    }
}

} // verus!
