//! The primitive entries a configuration layer can hold.

use vstd::prelude::*;

verus! {

/// What one layer records about one kind of value: either a value, or the
/// explicit statement that the kind has none from this layer on.
#[derive(Debug, Clone, PartialEq, Eq)]
pub enum Value<T> {
    /// The layer gives the kind this value.
    Assigned(T),
    /// The layer states that the kind has no value, whatever older layers hold.
    ExplicitlyUnset,
}

/// A primitive configuration entry.
#[derive(Debug, Clone, PartialEq, Eq)]
pub enum ConfigValue {
    /// Presence alone is the information.
    Marker,
    /// A boolean switch.
    Bool(bool),
    /// A non-negative quantity, such as a timeout or a size.
    Number(u64),
    /// Free text, such as a region or a signing name.
    Text(String),
}

/// The character that writes the decimal digit `d`.
pub open spec fn digit(d: nat) -> char
    recommends
        d < 10,
{
    if d == 0 {
        '0'
    } else if d == 1 {
        '1'
    } else if d == 2 {
        '2'
    } else if d == 3 {
        '3'
    } else if d == 4 {
        '4'
    } else if d == 5 {
        '5'
    } else if d == 6 {
        '6'
    } else if d == 7 {
        '7'
    } else if d == 8 {
        '8'
    } else {
        '9'
    }
}

/// The decimal numeral of `n`, most significant digit first, without leading zeros.
pub open spec fn decimal(n: nat) -> Seq<char>
    decreases n,
{
    if n < 10 {
        seq![digit(n)]
    } else {
        decimal(n / 10).push(digit(n % 10))
    }
}

impl ConfigValue {
    /// The text by which a value is shown in a provenance record.
    pub open spec fn text(self) -> Seq<char> {
        match self {
            ConfigValue::Marker => "marker"@,
            ConfigValue::Bool(b) => if b {
                "true"@
            } else {
                "false"@
            },
            ConfigValue::Number(n) => decimal(n as nat),
            ConfigValue::Text(s) => s@,
        }
    }

    /// Renders the value as text.
    pub fn describe(&self) -> (text: String)
        ensures
            text@ == self.text(),
    {
        match self {
            ConfigValue::Marker => String::from_str("marker"),
            ConfigValue::Bool(b) => if *b {
                String::from_str("true")
            } else {
                String::from_str("false")
            },
            ConfigValue::Number(n) => decimal_string(*n),
            ConfigValue::Text(s) => s.clone(),
        }
    }
}

fn digit_str(d: u64) -> (s: &'static str)
    requires
        d < 10,
    ensures
        s@ == seq![digit(d as nat)],
{
    proof {
        reveal_strlit("0");
        reveal_strlit("1");
        reveal_strlit("2");
        reveal_strlit("3");
        reveal_strlit("4");
        reveal_strlit("5");
        reveal_strlit("6");
        reveal_strlit("7");
        reveal_strlit("8");
        reveal_strlit("9");
    }
    let s = if d == 0 {
        "0"
    } else if d == 1 {
        "1"
    } else if d == 2 {
        "2"
    } else if d == 3 {
        "3"
    } else if d == 4 {
        "4"
    } else if d == 5 {
        "5"
    } else if d == 6 {
        "6"
    } else if d == 7 {
        "7"
    } else if d == 8 {
        "8"
    } else {
        "9"
    };
    assert(s@ =~= seq![digit(d as nat)]);
    s
}

/// Writes `n` as a decimal numeral.
pub fn decimal_string(n: u64) -> (text: String)
    ensures
        text@ == decimal(n as nat),
    decreases n,
{
    if n < 10 {
        String::from_str(digit_str(n))
    } else {
        let mut text = decimal_string(n / 10);
        text.append(digit_str(n % 10));
        assert(text@ =~= decimal((n / 10) as nat).push(digit((n % 10) as nat)));
        text
    }
}

} // verus!
