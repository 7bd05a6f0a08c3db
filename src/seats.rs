use vstd::prelude::*;
use vstd::string::StringExecFns;
use vstd::string::StringSliceAdditionalSpecFns;

verus! {

/// A seat at a four-player table. Partnerships are A+C against B+D.
#[derive(Debug, Clone, Copy, PartialEq, Eq, Hash, Structural)]
pub enum Seat {
    A,
    B,
    C,
    D,
}

pub open spec fn seat_index(s: Seat) -> int {
    match s {
        Seat::A => 0,
        Seat::B => 1,
        Seat::C => 2,
        Seat::D => 3,
    }
}

/// The seat whose name is the letter given by `b`, in either case.
pub open spec fn seat_of_byte(b: u8) -> Option<Seat> {
    if b == 65 || b == 97 {
        Some(Seat::A)
    } else if b == 66 || b == 98 {
        Some(Seat::B)
    } else if b == 67 || b == 99 {
        Some(Seat::C)
    } else if b == 68 || b == 100 {
        Some(Seat::D)
    } else {
        None
    }
}

impl Seat {
    pub fn to_index(self) -> (i: usize)
        ensures
            i as int == seat_index(self),
    {
        match self {
            Seat::A => 0,
            Seat::B => 1,
            Seat::C => 2,
            Seat::D => 3,
        }
    }

    pub fn from_index(i: usize) -> (s: Option<Seat>)
        ensures
            i < 4 <==> s is Some,
            s matches Some(seat) ==> seat_index(seat) == i,
    {
        match i {
            0 => Some(Seat::A),
            1 => Some(Seat::B),
            2 => Some(Seat::C),
            3 => Some(Seat::D),
            _ => None,
        }
    }

    /// Parses a seat letter, `A` to `D` in either case; any other text is refused.
    pub fn parse(s: &str) -> (r: Option<Seat>)
        ensures
            r == (if s.spec_bytes().len() == 1 { seat_of_byte(s.spec_bytes()[0]) } else { None::<Seat> }),
    {
        let b = s.as_bytes();
        if b.len() != 1 {
            return None;
        }
        let c = b[0];
        if c == 65 || c == 97 {
            Some(Seat::A)
        } else if c == 66 || c == 98 {
            Some(Seat::B)
        } else if c == 67 || c == 99 {
            Some(Seat::C)
        } else if c == 68 || c == 100 {
            Some(Seat::D)
        } else {
            None
        }
    }

    /// The seat's letter.
    pub fn to_string(&self) -> (r: String)
        ensures
            r@ == seq![match self {
                Seat::A => 'A',
                Seat::B => 'B',
                Seat::C => 'C',
                Seat::D => 'D',
            }],
    {
        let r = match self {
            Seat::A => String::from_str("A"),
            Seat::B => String::from_str("B"),
            Seat::C => String::from_str("C"),
            Seat::D => String::from_str("D"),
        };
        proof {
            reveal_strlit("A");
            reveal_strlit("B");
            reveal_strlit("C");
            reveal_strlit("D");
        }
        r
    }
}

impl std::str::FromStr for Seat {
    type Err = ();

    fn from_str(s: &str) -> Result<Seat, ()> {
        match Seat::parse(s) {
            Some(seat) => Ok(seat),
            None => Err(()),
        }
    }
}

} // verus!
