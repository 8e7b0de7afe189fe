//! What the actor and its callers share: the actor's name, the numbers of
//! its methods and the records that two of them take.

use vstd::prelude::*;

verus! {

/// The name under which the actor is registered.
pub const CUSTOMSYSCALL_ACTOR_NAME: &'static str = "customsyscall";

/// The number of the method `Blake2`.
pub const BLAKE2_METHOD: u64 = 3062748980;

/// The number of the method `Crc`.
pub const CRC_METHOD: u64 = 1931031948;

/// The number of the method `Pbkdf2`.
pub const PBKDF2_METHOD: u64 = 3173791782;

/// The number of the method `Argon2`.
pub const ARGON2_METHOD: u64 = 2785015011;

/// The number of the method `Rand`.
pub const RAND_METHOD: u64 = 4203131911;

/// The parameters of the method `Pbkdf2`. On the wire they are the tuple
/// `(password, salt)`.
#[derive(Debug, Clone, Copy, PartialEq, Eq, Structural)]
pub struct Pbkdf2Params {
    pub password: u64,
    pub salt: u64,
}

/// The parameters of the method `Argon2`. On the wire they are the tuple
/// `(password, salt)`.
#[derive(Debug, Clone, Copy, PartialEq, Eq, Structural)]
pub struct Argon2Params {
    pub password: u64,
    pub salt: u64,
}

impl Default for Pbkdf2Params {
    fn default() -> (params: Self)
        ensures
            params == (Pbkdf2Params { password: 0, salt: 0 }),
    {
        Pbkdf2Params { password: 0, salt: 0 }
    }
}

impl Default for Argon2Params {
    fn default() -> (params: Self)
        ensures
            params == (Argon2Params { password: 0, salt: 0 }),
    {
        Argon2Params { password: 0, salt: 0 }
    }
}

impl Pbkdf2Params {
    /// The record that a tuple of fields denotes: its two fields in their
    /// declared order, and nothing for a tuple of another length.
    pub open spec fn of_fields(fields: Seq<u64>) -> Option<Self> {
        if fields.len() == 2 {
            Some(Pbkdf2Params { password: fields[0], salt: fields[1] })
        } else {
            None
        }
    }

    /// Reads the record from the fields of its tuple.
    pub fn from_fields(fields: &[u64]) -> (params: Option<Self>)
        ensures
            params == Self::of_fields(fields@),
    {
        if fields.len() == 2 {
            Some(Pbkdf2Params { password: fields[0], salt: fields[1] })
        } else {
            None
        }
    }

    /// The fields of the record, in their declared order.
    pub fn to_fields(&self) -> (fields: Vec<u64>)
        ensures
            fields@ == seq![self.password, self.salt],
            Self::of_fields(fields@) == Some(*self),
    {
        let mut fields: Vec<u64> = Vec::new();
        fields.push(self.password);
        fields.push(self.salt);
        assert(fields@ =~= seq![self.password, self.salt]);
        fields
    }
}

impl Argon2Params {
    /// The record that a tuple of fields denotes: its two fields in their
    /// declared order, and nothing for a tuple of another length.
    pub open spec fn of_fields(fields: Seq<u64>) -> Option<Self> {
        if fields.len() == 2 {
            Some(Argon2Params { password: fields[0], salt: fields[1] })
        } else {
            None
        }
    }

    /// Reads the record from the fields of its tuple.
    pub fn from_fields(fields: &[u64]) -> (params: Option<Self>)
        ensures
            params == Self::of_fields(fields@),
    {
        if fields.len() == 2 {
            Some(Argon2Params { password: fields[0], salt: fields[1] })
        } else {
            None
        }
    }

    /// The fields of the record, in their declared order.
    pub fn to_fields(&self) -> (fields: Vec<u64>)
        ensures
            fields@ == seq![self.password, self.salt],
            Self::of_fields(fields@) == Some(*self),
    {
        let mut fields: Vec<u64> = Vec::new();
        fields.push(self.password);
        fields.push(self.salt);
        assert(fields@ =~= seq![self.password, self.salt]);
        fields
    }
}

/// The methods of the actor.
#[derive(Debug, Clone, Copy, PartialEq, Eq, Structural)]
pub enum Method {
    Blake2,
    Crc,
    Pbkdf2,
    Argon2,
    Rand,
}

impl Method {
    /// The number of the method: a constant, fixed once from the method's
    /// name.
    pub open spec fn number_of(self) -> u64 {
        match self {
            Method::Blake2 => BLAKE2_METHOD,
            Method::Crc => CRC_METHOD,
            Method::Pbkdf2 => PBKDF2_METHOD,
            Method::Argon2 => ARGON2_METHOD,
            Method::Rand => RAND_METHOD,
        }
    }

    /// The method with the number `number`, if there is one.
    pub open spec fn with_number(number: u64) -> Option<Method> {
        if number == BLAKE2_METHOD {
            Some(Method::Blake2)
        } else if number == CRC_METHOD {
            Some(Method::Crc)
        } else if number == PBKDF2_METHOD {
            Some(Method::Pbkdf2)
        } else if number == ARGON2_METHOD {
            Some(Method::Argon2)
        } else if number == RAND_METHOD {
            Some(Method::Rand)
        } else {
            None
        }
    }

    /// The number of the method.
    pub fn number(&self) -> (number: u64)
        ensures
            number == self.number_of(),
    {
        match self {
            Method::Blake2 => BLAKE2_METHOD,
            Method::Crc => CRC_METHOD,
            Method::Pbkdf2 => PBKDF2_METHOD,
            Method::Argon2 => ARGON2_METHOD,
            Method::Rand => RAND_METHOD,
        }
    }

    /// The method with the number `number`; `None` for a number that no
    /// method has.
    pub fn from_u64(number: u64) -> (method: Option<Method>)
        ensures
            method == Method::with_number(number),
            method matches Some(m) ==> m.number_of() == number,
            method is None ==> forall|m: Method| m.number_of() != number,
    {
        if number == BLAKE2_METHOD {
            Some(Method::Blake2)
        } else if number == CRC_METHOD {
            Some(Method::Crc)
        } else if number == PBKDF2_METHOD {
            Some(Method::Pbkdf2)
        } else if number == ARGON2_METHOD {
            Some(Method::Argon2)
        } else if number == RAND_METHOD {
            Some(Method::Rand)
        } else {
            None
        }
    }
}

/// Every method is found again under its number, and two methods with one
/// number are one method.
pub proof fn lemma_method_numbers(a: Method, b: Method)
    ensures
        Method::with_number(a.number_of()) == Some(a),
        a.number_of() == b.number_of() ==> a == b,
{
}

} // verus!
