//! The options of the password command.

use vstd::prelude::*;

use crate::process::gen_pass::{can_generate, is_password, process_genpass};

verus! {

/// What a password is asked to be: its length, and a flag for each class of
/// characters, `1` for on and anything else for off.
#[derive(Clone, Copy, Debug, PartialEq, Eq, Structural)]
pub struct GenPassOpts {
    pub length: u8,
    pub uppercase: u8,
    pub lowercase: u8,
    pub number: u8,
    pub symbol: u8,
}

impl Default for GenPassOpts {
    /// Sixteen characters, from all four classes.
    fn default() -> (opts: Self)
        ensures
            opts == (GenPassOpts { length: 16, uppercase: 1, lowercase: 1, number: 1, symbol: 1 }),
    {
        GenPassOpts { length: 16, uppercase: 1, lowercase: 1, number: 1, symbol: 1 }
    }
}

impl GenPassOpts {
    /// Whether a password can meet these options.
    pub open spec fn can_be_met(&self) -> bool {
        can_generate(self.length, self.uppercase, self.lowercase, self.number, self.symbol)
    }

    /// Whether `password` meets these options.
    pub open spec fn is_met_by(&self, password: Seq<char>) -> bool {
        is_password(
            password,
            self.length,
            self.uppercase,
            self.lowercase,
            self.number,
            self.symbol,
        )
    }

    /// Tells whether a password can meet these options.
    pub fn is_satisfiable(&self) -> (ok: bool)
        ensures
            ok == self.can_be_met(),
    {
        let mut classes: u8 = 0;
        if self.uppercase == 1 {
            classes += 1;
        }
        if self.lowercase == 1 {
            classes += 1;
        }
        if self.number == 1 {
            classes += 1;
        }
        if self.symbol == 1 {
            classes += 1;
        }
        classes <= self.length && (self.length == 0 || classes > 0)
    }

    /// Generates a password that meets these options, or none where no
    /// password can.
    pub fn generate(&self) -> (password: Option<String>)
        ensures
            match password {
                Some(text) => self.can_be_met() && self.is_met_by(text@),
                None => !self.can_be_met(),
            },
    {
        if self.is_satisfiable() {
            Some(
                process_genpass(
                    self.length,
                    self.uppercase,
                    self.lowercase,
                    self.number,
                    self.symbol,
                ),
            )
        } else {
            None
        }
    }
}

} // verus!
