//! A compiled contract: its interface and its code, and how a function is
//! picked from the interface by name.

use crate::abi::{type_models, AbiType, SpecType};
use crate::error::LookupError;
use vstd::prelude::*;

verus! {

/// One function of a contract interface.
#[derive(Debug, PartialEq, Eq)]
pub struct Function {
    /// Name of the function, without its parameter list.
    pub name: String,
    /// Types of the parameters, in order.
    pub inputs: Vec<AbiType>,
}

/// Mathematical model of a [`Function`].
pub struct SpecFunction {
    pub name: Seq<char>,
    pub inputs: Seq<SpecType>,
}

impl View for Function {
    type V = SpecFunction;

    open spec fn view(&self) -> SpecFunction {
        SpecFunction { name: self.name@, inputs: type_models(self.inputs@) }
    }
}

/// A compiled contract: the parsed interface and the code to deploy.
#[derive(Debug, PartialEq, Eq)]
pub struct EthContract {
    /// Parameter types of the constructor, if the interface declares one.
    pub constructor: Option<Vec<AbiType>>,
    /// The function table.
    pub functions: Vec<Function>,
    /// The code that a deployment carries.
    pub code: Vec<u8>,
}

/// Mathematical model of an [`EthContract`].
pub struct SpecContract {
    pub constructor: Option<Seq<SpecType>>,
    pub functions: Seq<SpecFunction>,
    pub code: Seq<u8>,
}

impl View for EthContract {
    type V = SpecContract;

    open spec fn view(&self) -> SpecContract {
        SpecContract {
            constructor: match self.constructor {
                Some(inputs) => Some(type_models(inputs@)),
                None => None,
            },
            functions: Seq::new(self.functions@.len(), |i: int| self.functions@[i]@),
            code: self.code@,
        }
    }
}

impl SpecContract {
    /// The parameter types that a deployment is checked against: those of
    /// the constructor, or none where the interface declares no constructor.
    pub open spec fn constructor_inputs(self) -> Seq<SpecType> {
        match self.constructor {
            Some(inputs) => inputs,
            None => Seq::empty(),
        }
    }
}

/// How many of the first `upto` functions carry the name.
pub open spec fn count_named(functions: Seq<SpecFunction>, name: Seq<char>, upto: int) -> nat
    decreases upto,
{
    if 0 < upto <= functions.len() {
        count_named(functions, name, upto - 1) + if functions[upto - 1].name == name {
            1nat
        } else {
            0nat
        }
    } else {
        0
    }
}

/// How many functions of the table carry the name.
pub open spec fn name_count(functions: Seq<SpecFunction>, name: Seq<char>) -> nat {
    count_named(functions, name, functions.len() as int)
}

/// Whether `index` is the position of the first function that carries the
/// name.
pub open spec fn is_first_named(functions: Seq<SpecFunction>, name: Seq<char>, index: int) -> bool {
    &&& 0 <= index < functions.len()
    &&& functions[index].name == name
    &&& forall|j: int| 0 <= j < index ==> (#[trigger] functions[j]).name != name
}

/// The position of the first function that carries the name.
pub open spec fn first_named(functions: Seq<SpecFunction>, name: Seq<char>) -> int {
    choose|index: int| is_first_named(functions, name, index)
}

/// The first function of a name is the one position that
/// [`is_first_named`] holds of.
pub proof fn lemma_first_named_is(functions: Seq<SpecFunction>, name: Seq<char>, index: int)
    requires
        is_first_named(functions, name, index),
    ensures
        first_named(functions, name) == index,
{
    let chosen = first_named(functions, name);
    assert(is_first_named(functions, name, chosen));
    if chosen < index {
        assert(functions[chosen].name != name);
    } else if index < chosen {
        assert(functions[index].name != name);
    }
}

/// What looking a name up gives: the position of the one function that
/// carries it, or why no function can be picked.
pub open spec fn lookup(functions: Seq<SpecFunction>, name: Seq<char>) -> Result<int, LookupError> {
    let matches = name_count(functions, name);
    if matches == 0 {
        Err(LookupError::NotFound)
    } else if matches == 1 {
        Ok(first_named(functions, name))
    } else {
        Err(LookupError::Ambiguous { matches: matches as usize })
    }
}

/// Where no function among the first `upto` carries the name, the count
/// is zero, and the other way round.
pub proof fn lemma_count_zero(functions: Seq<SpecFunction>, name: Seq<char>, upto: int)
    requires
        0 <= upto <= functions.len(),
    ensures
        count_named(functions, name, upto) == 0 <==> forall|j: int|
            0 <= j < upto ==> (#[trigger] functions[j]).name != name,
    decreases upto,
{
    if upto > 0 {
        lemma_count_zero(functions, name, upto - 1);
        if count_named(functions, name, upto) == 0 {
            assert forall|j: int| 0 <= j < upto implies (#[trigger] functions[j]).name != name by {
                if j < upto - 1 {
                } else {
                    assert(functions[upto - 1].name != name);
                }
            }
        }
    }
}

impl EthContract {
    /// Pairs a parsed interface with the code of the contract.
    pub fn new(
        constructor: Option<Vec<AbiType>>,
        functions: Vec<Function>,
        code: Vec<u8>,
    ) -> (contract: EthContract)
        ensures
            contract.constructor == constructor,
            contract.functions == functions,
            contract.code == code,
    {
        EthContract { constructor, functions, code }
    }

    /// Picks the function of the given name from the function table.
    ///
    /// Succeeds with the position of the function exactly when one function
    /// carries the name. Fails with `NotFound` when none does, and with
    /// `Ambiguous` and their number when several do.
    pub fn find_function(&self, name: &str) -> (found: Result<usize, LookupError>)
        ensures
            match found {
                Ok(index) => lookup(self@.functions, name@) == Ok::<int, LookupError>(index as int),
                Err(e) => lookup(self@.functions, name@) == Err::<int, LookupError>(e),
            },
            found matches Ok(index) ==> index < self.functions.len()
                && self.functions[index as int].name@ == name@,
    {
        let wanted = name.to_owned();
        let ghost table = self@.functions;
        let mut matches: usize = 0;
        let mut first: usize = 0;
        let mut i: usize = 0;
        while i < self.functions.len()
            invariant
                i <= self.functions.len(),
                table == self@.functions,
                wanted@ == name@,
                matches == count_named(table, name@, i as int),
                matches <= i,
                matches > 0 ==> is_first_named(table, name@, first as int) && first < i,
            decreases self.functions.len() - i,
        {
            proof {
                lemma_count_zero(table, name@, i as int);
            }
            if self.functions[i].name == wanted {
                if matches == 0 {
                    first = i;
                }
                matches = matches + 1;
            }
            i += 1;
        }
        if matches == 0 {
            Err(LookupError::NotFound)
        } else if matches == 1 {
            proof {
                lemma_first_named_is(table, name@, first as int);
            }
            Ok(first)
        } else {
            Err(LookupError::Ambiguous { matches })
        }
    }
}

} // verus!
