//! Checking the models that a node offers against the network's allowed
//! models: each must be allowed, and its quantization must be one whose
//! memory requirement the network lists. Placing the models on the GPUs
//! weighs fractional gigabytes and is the caller's part.

use vstd::prelude::*;
use vstd::string::StringExecFns;

verus! {

/// A model that a node offers, from its settings file.
#[derive(Clone, Debug)]
pub struct ModelConfig {
    pub model_name: String,
    /// `fp16`, `int8` or `int4`.
    pub quantization: String,
    pub max_concurrent_requests: u32,
}

/// A node's settings: the models it offers.
#[derive(Clone, Debug)]
pub struct NodeSettings {
    pub models: Vec<ModelConfig>,
}

/// A quantization with a listed memory requirement.
#[derive(Clone, Copy, Debug, PartialEq, Eq, Structural)]
pub enum Quantization {
    Fp16,
    Int8,
    Int4,
}

/// Why a model cannot be offered.
#[derive(Clone, Debug)]
pub enum ModelError {
    /// The model is not among the network's allowed models.
    NotAllowed(String),
    /// The quantization is none of `fp16`, `int8`, `int4`.
    InvalidQuantization(String),
}

/// The quantization that a name denotes.
pub open spec fn quantization_of(name: Seq<char>) -> Option<Quantization> {
    if name == "fp16"@ {
        Some(Quantization::Fp16)
    } else if name == "int8"@ {
        Some(Quantization::Int8)
    } else if name == "int4"@ {
        Some(Quantization::Int4)
    } else {
        None
    }
}

/// The index of the first name equal to `name`, or the number of names.
pub open spec fn first_named(names: Seq<String>, name: Seq<char>) -> int
    decreases names.len(),
{
    if names.len() == 0 {
        0
    } else if names[0]@ == name {
        0
    } else {
        1 + first_named(names.drop_first(), name)
    }
}

proof fn lemma_first_named_unique(names: Seq<String>, name: Seq<char>, k: int)
    requires
        0 <= k <= names.len(),
        forall|j: int| 0 <= j < k ==> (#[trigger] names[j])@ != name,
        k < names.len() ==> names[k]@ == name,
    ensures
        first_named(names, name) == k,
    decreases names.len(),
{
    if names.len() > 0 && k > 0 {
        assert forall|j: int| 0 <= j < k - 1 implies (#[trigger] names.drop_first()[j])@ != name by {
            assert(names.drop_first()[j] == names[j + 1]);
        }
        lemma_first_named_unique(names.drop_first(), name, k - 1);
    }
}

/// The checker of offered models.
pub struct ModelValidator;

impl ModelValidator {
    /// The quantization that a name denotes.
    pub fn parse_quantization(name: &String) -> (r: Option<Quantization>)
        ensures
            r == quantization_of(name@),
    {
        if *name == <String as StringExecFns>::from_str("fp16") {
            Some(Quantization::Fp16)
        } else if *name == <String as StringExecFns>::from_str("int8") {
            Some(Quantization::Int8)
        } else if *name == <String as StringExecFns>::from_str("int4") {
            Some(Quantization::Int4)
        } else {
            None
        }
    }

    /// Resolves an offered model against the names of the network's allowed
    /// models: the index of the first allowed model of that name and the
    /// quantization; an error for a model that is not allowed, then for a
    /// quantization that is not listed.
    pub fn resolve_model(allowed_names: &Vec<String>, config: &ModelConfig) -> (r: Result<(usize, Quantization), ModelError>)
        ensures
            match r {
                Ok((i, q)) => i == first_named(allowed_names@, config.model_name@) && i < allowed_names@.len()
                    && quantization_of(config.quantization@) == Some(q),
                Err(ModelError::NotAllowed(n)) => first_named(allowed_names@, config.model_name@)
                    == allowed_names@.len() && n == config.model_name,
                Err(ModelError::InvalidQuantization(q)) => first_named(allowed_names@, config.model_name@)
                    < allowed_names@.len() && quantization_of(config.quantization@) is None
                    && q == config.quantization,
            },
    {
        let mut i: usize = 0;
        while i < allowed_names.len() && !(allowed_names[i] == config.model_name)
            invariant
                i <= allowed_names@.len(),
                forall|j: int| 0 <= j < i ==> (#[trigger] allowed_names@[j])@ != config.model_name@,
            decreases allowed_names@.len() - i,
        {
            i = i + 1;
        }
        proof {
            lemma_first_named_unique(allowed_names@, config.model_name@, i as int);
        }
        if i == allowed_names.len() {
            return Err(ModelError::NotAllowed(config.model_name.clone()));
        }
        match Self::parse_quantization(&config.quantization) {
            Some(q) => Ok((i, q)),
            None => Err(ModelError::InvalidQuantization(config.quantization.clone())),
        }
    }
}

} // verus!
