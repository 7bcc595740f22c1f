//! How long a model stays loaded after a request, and how that is written
//! on the wire.

use crate::decimal::{decimal, decimal_string, lemma_decimal_injective};
use vstd::prelude::*;

verus! {

/// Unit of a keep-alive duration.
#[derive(Debug, Clone, Copy, PartialEq, Eq, Structural)]
pub enum TimeUnit {
    Seconds,
    Minutes,
    Hours,
}

impl TimeUnit {
    /// The characters that stand for this unit in a duration string.
    pub open spec fn symbol(self) -> Seq<char> {
        match self {
            TimeUnit::Seconds => seq!['s'],
            TimeUnit::Minutes => seq!['m'],
            TimeUnit::Hours => seq!['h', 'r'],
        }
    }

    /// The unit's symbol: `s`, `m` or `hr`.
    pub fn to_symbol(&self) -> (symbol: &'static str)
        ensures
            symbol@ == self.symbol(),
    {
        proof {
            reveal_strlit("s");
            reveal_strlit("m");
            reveal_strlit("hr");
        }
        match self {
            TimeUnit::Seconds => "s",
            TimeUnit::Minutes => "m",
            TimeUnit::Hours => "hr",
        }
    }
}

/// How long the service keeps a model in memory after a request.
#[derive(Debug, Clone, Copy, PartialEq, Eq, Structural)]
pub enum KeepAlive {
    /// The model is never unloaded.
    Indefinitely,
    /// The model is unloaded as soon as the request has been answered.
    UnloadOnCompletion,
    /// The model stays loaded for `time` units of `unit`.
    Until { time: u64, unit: TimeUnit },
}

/// What the keep-alive field of a request holds: a number or a string.
#[derive(Debug, Clone, PartialEq, Eq)]
pub enum KeepAliveWire {
    Integer(i8),
    Text(String),
}

/// A keep-alive wire value as mathematics: an integer, or a string as the
/// sequence of its characters.
pub enum KeepAliveWireView {
    Integer(int),
    Text(Seq<char>),
}

impl View for KeepAliveWire {
    type V = KeepAliveWireView;

    open spec fn view(&self) -> KeepAliveWireView {
        match *self {
            KeepAliveWire::Integer(i) => KeepAliveWireView::Integer(i as int),
            KeepAliveWire::Text(text) => KeepAliveWireView::Text(text@),
        }
    }
}

impl KeepAlive {
    /// The wire value of this setting: -1 for a model that is never
    /// unloaded, 0 for one that is unloaded at once, and for a duration its
    /// count in decimal notation followed by the unit's symbol.
    pub open spec fn wire(self) -> KeepAliveWireView {
        match self {
            KeepAlive::Indefinitely => KeepAliveWireView::Integer(-1),
            KeepAlive::UnloadOnCompletion => KeepAliveWireView::Integer(0),
            KeepAlive::Until { time, unit } => KeepAliveWireView::Text(
                decimal(time as nat) + unit.symbol(),
            ),
        }
    }

    /// Settings with the same wire value are the same setting: nothing is
    /// lost on the wire.
    pub proof fn lemma_wire_injective(a: KeepAlive, b: KeepAlive)
        requires
            a.wire() == b.wire(),
        ensures
            a == b,
    {
        match (a, b) {
            (
                KeepAlive::Until { time: time_a, unit: unit_a },
                KeepAlive::Until { time: time_b, unit: unit_b },
            ) => {
                let count_a = decimal(time_a as nat);
                let count_b = decimal(time_b as nat);
                let text = count_a + unit_a.symbol();
                assert(text == count_b + unit_b.symbol());
                assert(text.last() == unit_a.symbol().last());
                assert(text.last() == unit_b.symbol().last());
                assert(unit_a == unit_b);
                assert(count_a.len() == count_b.len());
                assert forall|i: int| 0 <= i < count_a.len() implies count_a[i] == count_b[i] by {
                    assert(text[i] == count_a[i]);
                    assert(text[i] == count_b[i]);
                }
                assert(count_a =~= count_b);
                lemma_decimal_injective(time_a as nat, time_b as nat);
            },
            _ => {},
        }
    }

    /// Encodes this setting as the value of a request's keep-alive field.
    pub fn encode(&self) -> (wire: KeepAliveWire)
        ensures
            wire@ == self.wire(),
    {
        match self {
            KeepAlive::Indefinitely => KeepAliveWire::Integer(-1),
            KeepAlive::UnloadOnCompletion => KeepAliveWire::Integer(0),
            KeepAlive::Until { time, unit } => {
                let mut text = decimal_string(*time);
                text.append(unit.to_symbol());
                KeepAliveWire::Text(text)
            },
        }
    }
}

} // verus!
