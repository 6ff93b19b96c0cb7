use vstd::prelude::*;
use vstd::string::StringExecFns;

verus! {

/// Error that can occur while a value is turned into a database parameter.
#[derive(Debug, PartialEq, Eq)]
pub enum SerializationError {
    /// A failure reported by the framework that drives the encoding.
    GeneralError(String),
    /// The provided value is not valid for the required database value.
    InvalidValue(String),
    /// The structure of the provided type does not fit the required list of
    /// parameters.
    StructuralMismatch(&'static str),
    /// The input type does not fit the required database type.
    TypeMismatch(&'static str, String),
    /// The input value is too big or too small for the required database
    /// type.
    RangeErr(&'static str, u8),
}

/// The character of a decimal digit.
pub open spec fn digit(d: nat) -> char {
    if d == 0 {
        '0'
    } else if d == 1 {
        '1'
    } else if d == 2 {
        '2'
    } else if d == 3 {
        '3'
    } else if d == 4 {
        '4'
    } else if d == 5 {
        '5'
    } else if d == 6 {
        '6'
    } else if d == 7 {
        '7'
    } else if d == 8 {
        '8'
    } else {
        '9'
    }
}

/// A number in decimal digits, without leading zeros.
pub open spec fn decimal(n: nat) -> Seq<char>
    decreases n,
{
    if n < 10 {
        seq![digit(n)]
    } else {
        decimal(n / 10).push(digit(n % 10))
    }
}

/// The text of one decimal digit.
fn digit_text(d: u8) -> (t: &'static str)
    requires
        d < 10,
    ensures
        t@ == seq![digit(d as nat)],
{
    proof {
        reveal_strlit("0");
        reveal_strlit("1");
        reveal_strlit("2");
        reveal_strlit("3");
        reveal_strlit("4");
        reveal_strlit("5");
        reveal_strlit("6");
        reveal_strlit("7");
        reveal_strlit("8");
        reveal_strlit("9");
    }
    let t = match d {
        0 => "0",
        1 => "1",
        2 => "2",
        3 => "3",
        4 => "4",
        5 => "5",
        6 => "6",
        7 => "7",
        8 => "8",
        _ => "9",
    };
    assert(t@ =~= seq![digit(d as nat)]);
    t
}

/// The decimal digits of a type code.
pub fn decimal_text(n: u8) -> (t: String)
    ensures
        t@ == decimal(n as nat),
{
    let mut t = String::new();
    if n >= 100 {
        t.append(digit_text(n / 100));
    }
    if n >= 10 {
        t.append(digit_text((n / 10) % 10));
    }
    t.append(digit_text(n % 10));
    proof {
        let m = n as nat;
        reveal_with_fuel(decimal, 3);
        assert(t@ =~= decimal(m));
    }
    t
}

impl SerializationError {
    /// The kind of the error in words.
    pub open spec fn kind(self) -> Seq<char> {
        match self {
            SerializationError::GeneralError(_) => "error from framework"@,
            SerializationError::InvalidValue(_) => "incorrect value"@,
            SerializationError::StructuralMismatch(_) => "structural mismatch"@,
            SerializationError::TypeMismatch(_, _) => "type mismatch"@,
            SerializationError::RangeErr(_, _) => "range exceeded"@,
        }
    }

    /// The error in words: its kind, a colon, and what it carries.
    pub open spec fn text(self) -> Seq<char> {
        match self {
            SerializationError::GeneralError(s) => self.kind() + ": "@ + s@,
            SerializationError::InvalidValue(s) => self.kind() + ": "@ + s@,
            SerializationError::StructuralMismatch(s) => self.kind() + ": "@ + s@,
            SerializationError::TypeMismatch(s, tc) => self.kind() + ": given value of type \""@
                + s@ + "\" cannot be converted into value of type code "@ + tc@,
            SerializationError::RangeErr(s, tc) => self.kind() + ": given value of type \""@ + s@
                + "\" does not fit into supported range of SQL type (type code "@ + decimal(
                tc as nat,
            ) + ")"@,
        }
    }

    /// The kind of the error in words.
    pub fn description(&self) -> (d: &'static str)
        ensures
            d@ == self.kind(),
    {
        match *self {
            SerializationError::GeneralError(_) => "error from framework",
            SerializationError::InvalidValue(_) => "incorrect value",
            SerializationError::StructuralMismatch(_) => "structural mismatch",
            SerializationError::TypeMismatch(_, _) => "type mismatch",
            SerializationError::RangeErr(_, _) => "range exceeded",
        }
    }

    /// An error of the framework, with its message.
    pub fn custom(msg: &str) -> (e: SerializationError)
        ensures
            e matches SerializationError::GeneralError(s) && s@ == msg@,
    {
        SerializationError::GeneralError(msg.to_owned())
    }

    /// The error in words.
    pub fn fmt(&self) -> (t: String)
        ensures
            t@ == self.text(),
    {
        let mut t = self.description().to_owned();
        match self {
            SerializationError::GeneralError(s) => {
                t.append(": ");
                t.append(s.as_str());
            },
            SerializationError::InvalidValue(s) => {
                t.append(": ");
                t.append(s.as_str());
            },
            SerializationError::StructuralMismatch(s) => {
                t.append(": ");
                t.append(s);
            },
            SerializationError::TypeMismatch(s, tc) => {
                t.append(": given value of type \"");
                t.append(s);
                t.append("\" cannot be converted into value of type code ");
                t.append(tc.as_str());
            },
            SerializationError::RangeErr(s, tc) => {
                t.append(": given value of type \"");
                t.append(s);
                t.append("\" does not fit into supported range of SQL type (type code ");
                let code = decimal_text(*tc);
                t.append(code.as_str());
                t.append(")");
            },
        }
        t
    }
}

impl From<&'static str> for SerializationError {
    fn from(error: &'static str) -> (e: SerializationError) {
        SerializationError::StructuralMismatch(error)
    }
}

impl vstd::std_specs::convert::FromSpecImpl<&'static str> for SerializationError {
    open spec fn obeys_from_spec() -> bool {
        true
    }

    open spec fn from_spec(error: &'static str) -> SerializationError {
        SerializationError::StructuralMismatch(error)
    }
}

} // verus!
