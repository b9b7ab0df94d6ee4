use vstd::prelude::*;
use vstd::string::StringExecFns;

verus! {

/// Why pixel data was rejected before any texture allocation took place.
///
/// Each variant carries the offending values, so a caller can report
/// expected versus actual dimensions or byte counts; `describe` renders
/// them as a human-readable message.
#[derive(Debug, Clone, Copy, PartialEq, Eq, Structural)]
pub enum LoadError {
    /// One of the two dimensions was zero.
    ZeroDimension { width: u16, height: u16 },
    /// `width * height * 4` cannot be represented in the platform's
    /// address-width integer.
    SizeOverflow { width: u16, height: u16 },
    /// The byte buffer's length does not equal `width * height * 4`.
    LengthMismatch { expected: usize, actual: usize },
    /// The encoded bytes could not be decoded into RGBA pixels.
    DecodeFailed,
    /// The decoded image is wider than a 16-bit dimension allows.
    WidthOutOfRange { width: u32 },
    /// The decoded image is taller than a 16-bit dimension allows.
    HeightOutOfRange { height: u32 },
}

/// A failure surfaced by this library.
#[derive(Debug, Clone, Copy, PartialEq, Eq, Structural)]
pub enum GameError {
    /// Image data could not be turned into a texture resource.
    ResourceLoadError(LoadError),
}

/// The character of a single decimal digit.
pub open spec fn digit_char(d: int) -> char {
    if d == 0 {
        '0'
    } else if d == 1 {
        '1'
    } else if d == 2 {
        '2'
    } else if d == 3 {
        '3'
    } else if d == 4 {
        '4'
    } else if d == 5 {
        '5'
    } else if d == 6 {
        '6'
    } else if d == 7 {
        '7'
    } else if d == 8 {
        '8'
    } else {
        '9'
    }
}

/// The decimal numeral of a number, most significant digit first.
pub open spec fn decimal(n: nat) -> Seq<char>
    decreases n,
{
    if n < 10 {
        seq![digit_char(n as int)]
    } else {
        decimal(n / 10).push(digit_char((n % 10) as int))
    }
}

/// The one-character string of a single decimal digit.
fn digit_str(d: u64) -> (s: &'static str)
    requires
        d < 10,
    ensures
        s@ == seq![digit_char(d as int)],
{
    proof {
        reveal_strlit("0");
        reveal_strlit("1");
        reveal_strlit("2");
        reveal_strlit("3");
        reveal_strlit("4");
        reveal_strlit("5");
        reveal_strlit("6");
        reveal_strlit("7");
        reveal_strlit("8");
        reveal_strlit("9");
    }
    match d {
        0 => "0",
        1 => "1",
        2 => "2",
        3 => "3",
        4 => "4",
        5 => "5",
        6 => "6",
        7 => "7",
        8 => "8",
        _ => "9",
    }
}

/// Render a number as its decimal numeral.
fn decimal_string(n: u64) -> (s: String)
    ensures
        s@ == decimal(n as nat),
    decreases n,
{
    let d = n % 10;
    if n < 10 {
        String::from_str(digit_str(d))
    } else {
        let mut s = decimal_string(n / 10);
        s.append(digit_str(d));
        proof {
            assert(s@ =~= decimal(n as nat));
        }
        s
    }
}

impl LoadError {
    /// The description this error renders to: a sentence naming the
    /// offending values it carries.
    pub open spec fn description(self) -> Seq<char> {
        match self {
            LoadError::ZeroDimension { width, height } => "tried to create a texture of size "@
                + decimal(width as nat) + "x"@ + decimal(height as nat)
                + ", each dimension must be greater than zero"@,
            LoadError::SizeOverflow { width, height } =>
                "integer overflow computing the byte size of a "@ + decimal(width as nat) + "x"@
                + decimal(height as nat) + " texture"@,
            LoadError::LengthMismatch { expected, actual } => "expected "@
                + decimal(expected as nat) + " bytes of pixel data, got "@
                + decimal(actual as nat),
            LoadError::DecodeFailed =>
                "the bytes could not be decoded as a supported image format"@,
            LoadError::WidthOutOfRange { width } => "decoded image width "@
                + decimal(width as nat) + " exceeds the 16-bit range"@,
            LoadError::HeightOutOfRange { height } => "decoded image height "@
                + decimal(height as nat) + " exceeds the 16-bit range"@,
        }
    }

    /// A human-readable description of why the data was rejected, naming
    /// the expected and actual values.
    pub fn describe(&self) -> (s: String)
        ensures
            s@ == self.description(),
    {
        match self {
            LoadError::ZeroDimension { width, height } => {
                let mut s = String::from_str("tried to create a texture of size ");
                s.append(decimal_string(*width as u64).as_str());
                s.append("x");
                s.append(decimal_string(*height as u64).as_str());
                s.append(", each dimension must be greater than zero");
                s
            },
            LoadError::SizeOverflow { width, height } => {
                let mut s = String::from_str("integer overflow computing the byte size of a ");
                s.append(decimal_string(*width as u64).as_str());
                s.append("x");
                s.append(decimal_string(*height as u64).as_str());
                s.append(" texture");
                s
            },
            LoadError::LengthMismatch { expected, actual } => {
                let mut s = String::from_str("expected ");
                s.append(decimal_string(*expected as u64).as_str());
                s.append(" bytes of pixel data, got ");
                s.append(decimal_string(*actual as u64).as_str());
                s
            },
            LoadError::DecodeFailed => {
                String::from_str("the bytes could not be decoded as a supported image format")
            },
            LoadError::WidthOutOfRange { width } => {
                let mut s = String::from_str("decoded image width ");
                s.append(decimal_string(*width as u64).as_str());
                s.append(" exceeds the 16-bit range");
                s
            },
            LoadError::HeightOutOfRange { height } => {
                let mut s = String::from_str("decoded image height ");
                s.append(decimal_string(*height as u64).as_str());
                s.append(" exceeds the 16-bit range");
                s
            },
        }
    }
}

impl GameError {
    /// The description this error renders to.
    pub open spec fn description(self) -> Seq<char> {
        match self {
            GameError::ResourceLoadError(e) => e.description(),
        }
    }

    /// A human-readable description of the failure.
    pub fn describe(&self) -> (s: String)
        ensures
            s@ == self.description(),
    {
        match self {
            GameError::ResourceLoadError(e) => e.describe(),
        }
    }
}

} // verus!
