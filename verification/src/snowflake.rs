//! The trait for every value that can be read as a Discord snowflake ID.

use vstd::prelude::*;
use vstd::pervasive::unreached;
use crate::text::{spec_parse_u64, parse_u64};

verus! {

/// Any datatype that can be interpreted as a Discord snowflake ID.
pub trait Snowflake {
    /// Whether this value denotes an ID at all.
    spec fn valid_snowflake(&self) -> bool;

    /// The ID this value denotes.
    spec fn snowflake_id(&self) -> u64;

    /// Converts this value to its ID.
    fn as_snowflake(&self) -> (r: u64)
        requires
            self.valid_snowflake(),
        ensures
            r == self.snowflake_id(),
    ;
}

impl Snowflake for u64 {
    /// A raw ID is always valid.
    open spec fn valid_snowflake(&self) -> bool {
        true
    }

    open spec fn snowflake_id(&self) -> u64 {
        *self
    }

    fn as_snowflake(&self) -> u64 {
        *self
    }
}

impl Snowflake for str {
    /// A string is valid exactly when it is a decimal ID in range.
    open spec fn valid_snowflake(&self) -> bool {
        spec_parse_u64(self@) is Some
    }

    open spec fn snowflake_id(&self) -> u64 {
        spec_parse_u64(self@)->0
    }

    fn as_snowflake(&self) -> u64 {
        match parse_u64(self) {
            Some(v) => v,
            None => unreached(),
        }
    }
}

impl Snowflake for String {
    /// A string is valid exactly when it is a decimal ID in range.
    open spec fn valid_snowflake(&self) -> bool {
        spec_parse_u64(self@) is Some
    }

    open spec fn snowflake_id(&self) -> u64 {
        spec_parse_u64(self@)->0
    }

    fn as_snowflake(&self) -> u64 {
        match parse_u64(self.as_str()) {
            Some(v) => v,
            None => unreached(),
        }
    }
}

impl Snowflake for crate::bot::Bot {
    /// A listed bot always carries its ID.
    open spec fn valid_snowflake(&self) -> bool {
        true
    }

    open spec fn snowflake_id(&self) -> u64 {
        self.id
    }

    fn as_snowflake(&self) -> u64 {
        self.id
    }
}

impl Snowflake for crate::user::User {
    /// A user always carries its ID.
    open spec fn valid_snowflake(&self) -> bool {
        true
    }

    open spec fn snowflake_id(&self) -> u64 {
        self.id
    }

    fn as_snowflake(&self) -> u64 {
        self.id
    }
}

impl Snowflake for crate::user::Voter {
    /// A voter always carries its ID.
    open spec fn valid_snowflake(&self) -> bool {
        true
    }

    open spec fn snowflake_id(&self) -> u64 {
        self.id
    }

    fn as_snowflake(&self) -> u64 {
        self.id
    }
}

} // verus!
