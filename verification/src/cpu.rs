//! Maps the processor's family and model identifiers to the generation that
//! the vendor names its certificate bundles after.

use crate::error::Error;
use vstd::prelude::*;

verus! {

/// Processor generations that the vendor publishes certificate bundles for.
#[derive(Clone, Copy, Debug, PartialEq, Eq, Structural)]
pub enum CpuModel {
    Naples,
    Rome,
    Milan,
}

/// What the platform reports of one core: its `cpu family` and `model`
/// fields, each absent if the platform did not list it.
pub struct CoreInfo {
    pub family: Option<String>,
    pub model: Option<String>,
}

/// The generation of a family and model pair, if the pair is known.
pub open spec fn model_of(family: Seq<char>, model: Seq<char>) -> Option<CpuModel> {
    if family == seq!['2', '3'] && model == seq!['1'] {
        Some(CpuModel::Naples)
    } else if family == seq!['2', '3'] && model == seq!['4', '9'] {
        Some(CpuModel::Rome)
    } else if family == seq!['2', '5'] && model == seq!['1'] {
        Some(CpuModel::Milan)
    } else {
        None
    }
}

/// The family is one of those that the table lists.
pub open spec fn known_family(family: Seq<char>) -> bool {
    family == seq!['2', '3'] || family == seq!['2', '5']
}

impl CpuModel {
    /// The generation's name as the vendor spells it in download paths.
    pub open spec fn spec_name(self) -> Seq<char> {
        match self {
            CpuModel::Naples => seq!['n', 'a', 'p', 'l', 'e', 's'],
            CpuModel::Rome => seq!['r', 'o', 'm', 'e'],
            CpuModel::Milan => seq!['m', 'i', 'l', 'a', 'n'],
        }
    }

    /// The generation's name as the vendor spells it in download paths.
    pub fn name(&self) -> (r: &'static str)
        ensures
            r@ == self.spec_name(),
    {
        proof {
            reveal_strlit("naples");
            reveal_strlit("rome");
            reveal_strlit("milan");
        }
        let r = match self {
            CpuModel::Naples => "naples",
            CpuModel::Rome => "rome",
            CpuModel::Milan => "milan",
        };
        assert(r@ =~= self.spec_name());
        r
    }
}

fn text_is(s: &String, lit: &str) -> (r: bool)
    ensures
        r == (s@ == lit@),
{
    let t = lit.to_owned();
    *s == t
}

/// The generation that a core's report resolves to, or why it resolves to
/// none: no core is listed; the report lacks the family, or lacks the model
/// though the family is known; the family or the pair is not in the table.
pub open spec fn resolve(core: Option<CoreInfo>) -> Result<CpuModel, Error> {
    match core {
        None => Err(Error::ReadingCoreData),
        Some(c) => match c.family {
            None => Err(Error::InvalidCpuData),
            Some(family) => if !known_family(family@) {
                Err(Error::UnknownCpuModel)
            } else {
                match c.model {
                    None => Err(Error::InvalidCpuData),
                    Some(model) => match model_of(family@, model@) {
                        Some(m) => Ok(m),
                        None => Err(Error::UnknownCpuModel),
                    },
                }
            },
        },
    }
}

/// Resolves the processor generation from what the platform reports of its
/// first core.
pub fn find_cpu_model(core: &Option<CoreInfo>) -> (r: Result<CpuModel, Error>)
    ensures
        r == resolve(*core),
{
    proof {
        reveal_strlit("23");
        reveal_strlit("25");
        reveal_strlit("1");
        reveal_strlit("49");
    }
    assert("23"@ =~= seq!['2', '3']);
    assert("25"@ =~= seq!['2', '5']);
    assert("1"@ =~= seq!['1']);
    assert("49"@ =~= seq!['4', '9']);
    let core = match core {
        Some(c) => c,
        None => {
            return Err(Error::ReadingCoreData);
        },
    };
    let family = match &core.family {
        Some(f) => f,
        None => {
            return Err(Error::InvalidCpuData);
        },
    };
    if text_is(family, "23") {
        match &core.model {
            Some(model) => if text_is(model, "1") {
                Ok(CpuModel::Naples)
            } else if text_is(model, "49") {
                Ok(CpuModel::Rome)
            } else {
                Err(Error::UnknownCpuModel)
            },
            None => Err(Error::InvalidCpuData),
        }
    } else if text_is(family, "25") {
        match &core.model {
            Some(model) => if text_is(model, "1") {
                Ok(CpuModel::Milan)
            } else {
                Err(Error::UnknownCpuModel)
            },
            None => Err(Error::InvalidCpuData),
        }
    } else {
        Err(Error::UnknownCpuModel)
    }
}

} // verus!
