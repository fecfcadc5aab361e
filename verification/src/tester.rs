//! A small exercise in storing a fallible construction result and
//! reading parts of it out later.

use vstd::prelude::*;
use vstd::string::StringExecFns;

verus! {

pub struct Values {
    pub value1: String,
    pub value2: u32,
}

pub struct MyStruct {
    pub values: Result<Values, ()>,
}

impl MyStruct {
    /// In practice the construction can fail; the outcome is stored
    /// either way.
    pub fn new() -> (m: MyStruct)
        ensures
            m.values matches Ok(v) && v.value1@ == "TESTER"@ && v.value2 == 56,
    {
        MyStruct { values: Ok(Values { value1: String::from_str("TESTER"), value2: 56 }) }
    }

    pub fn value1(&self) -> (r: Result<&str, ()>)
        ensures
            match self.values {
                Ok(v) => r matches Ok(s) && s@ == v.value1@,
                Err(_) => r is Err,
            },
    {
        match &self.values {
            Ok(v) => Ok(v.value1.as_str()),
            Err(_) => Err(()),
        }
    }

    pub fn value2(&self) -> (r: Result<u32, ()>)
        ensures
            match self.values {
                Ok(v) => r matches Ok(x) && x == v.value2,
                Err(_) => r is Err,
            },
    {
        match &self.values {
            Ok(v) => Ok(v.value2),
            Err(_) => Err(()),
        }
    }
}

} // verus!
