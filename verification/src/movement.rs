//! What one runner did during one play.

use vstd::prelude::*;
use vstd::string::*;
use crate::error::{ClassificationError, Scalar};
use crate::record::{agrees, BaseValue, BaseValueModel, MovementRecord, MovementRecordModel};
use crate::text::text_eq;

verus! {

/// Where a runner started and ended, and whether the runner was put out. A
/// base is 1 to 4, 4 for home plate reached; no base stands for home, where
/// the batter starts.
#[derive(Clone, Debug, PartialEq, Eq)]
pub struct Movement {
    pub runner: String,
    pub start_base: Option<u8>,
    pub end_base: Option<u8>,
    pub is_out: bool,
}

/// A movement as a mathematical value.
pub struct MovementModel {
    pub runner: Seq<char>,
    pub start_base: Option<u8>,
    pub end_base: Option<u8>,
    pub is_out: bool,
}

impl DeepView for Movement {
    type V = MovementModel;

    open spec fn deep_view(&self) -> MovementModel {
        MovementModel {
            runner: self.runner@,
            start_base: self.start_base,
            end_base: self.end_base,
            is_out: self.is_out,
        }
    }
}

impl View for Movement {
    type V = MovementModel;

    open spec fn view(&self) -> MovementModel {
        self.deep_view()
    }
}

/// Whether a base, where there is one, is 1 to 4.
pub open spec fn base_in_range(b: Option<u8>) -> bool {
    match b {
        Some(n) => 1 <= n <= 4,
        None => true,
    }
}

impl MovementModel {
    /// Both bases are in range.
    pub open spec fn wf(self) -> bool {
        base_in_range(self.start_base) && base_in_range(self.end_base)
    }
}

/// The base that a base code names, if it is one of the five codes.
pub open spec fn code_base(code: Seq<char>) -> Option<u8> {
    if code == "1B"@ {
        Some(1u8)
    } else if code == "2B"@ {
        Some(2u8)
    } else if code == "3B"@ {
        Some(3u8)
    } else if code == "4B"@ || code == "score"@ {
        Some(4u8)
    } else {
        None
    }
}

/// The base that a value of the feed stands for: none for null, the base of
/// a known code; anything else is turned down.
pub open spec fn base_of(v: BaseValueModel) -> Result<Option<u8>, ClassificationError> {
    match v {
        BaseValueModel::Null => Ok(None),
        BaseValueModel::Code(code) => match code_base(code) {
            Some(b) => Ok(Some(b)),
            None => Err(ClassificationError::MalformedScalar(Scalar::BaseCode)),
        },
        BaseValueModel::Other => Err(ClassificationError::MalformedScalar(Scalar::BaseCode)),
    }
}

/// The movement of the runner `runner` that a movement record describes.
/// A record that does not say whether the runner is out means that the
/// runner is not.
pub open spec fn movement_of(runner: Seq<char>, rec: MovementRecordModel) -> Result<
    MovementModel,
    ClassificationError,
> {
    match base_of(rec.start) {
        Err(e) => Err(e),
        Ok(start_base) => match base_of(rec.end) {
            Err(e) => Err(e),
            Ok(end_base) => Ok(
                MovementModel {
                    runner,
                    start_base,
                    end_base,
                    is_out: match rec.is_out {
                        Some(b) => b,
                        None => false,
                    },
                },
            ),
        },
    }
}

/// Extraction is total over the lexicon of base codes: null is no base,
/// `1B`, `2B` and `3B` are the bases 1 to 3, `4B` and `score` are base 4,
/// and any other text is an error.
pub proof fn lemma_base_lexicon(code: Seq<char>)
    ensures
        base_of(BaseValueModel::Null) == Ok::<Option<u8>, ClassificationError>(None),
        base_of(BaseValueModel::Code("1B"@)) == Ok::<Option<u8>, ClassificationError>(Some(1u8)),
        base_of(BaseValueModel::Code("2B"@)) == Ok::<Option<u8>, ClassificationError>(Some(2u8)),
        base_of(BaseValueModel::Code("3B"@)) == Ok::<Option<u8>, ClassificationError>(Some(3u8)),
        base_of(BaseValueModel::Code("4B"@)) == Ok::<Option<u8>, ClassificationError>(Some(4u8)),
        base_of(BaseValueModel::Code("score"@)) == Ok::<Option<u8>, ClassificationError>(
            Some(4u8),
        ),
        code != "1B"@ && code != "2B"@ && code != "3B"@ && code != "4B"@ && code != "score"@
            ==> base_of(BaseValueModel::Code(code)) == Err::<Option<u8>, ClassificationError>(
            ClassificationError::MalformedScalar(Scalar::BaseCode),
        ),
        base_of(BaseValueModel::Code(code)) is Ok ==> base_in_range(
            base_of(BaseValueModel::Code(code))->Ok_0,
        ),
{
    reveal_strlit("1B");
    reveal_strlit("2B");
    reveal_strlit("3B");
    reveal_strlit("4B");
    reveal_strlit("score");
    assert("1B"@[0] == '1');
    assert("2B"@[0] == '2');
    assert("3B"@[0] == '3');
    assert("4B"@[0] == '4');
    assert("score"@[0] == 's');
}

/// Every movement that a record describes has its bases in range.
pub proof fn lemma_movement_wf(runner: Seq<char>, rec: MovementRecordModel)
    requires
        movement_of(runner, rec) is Ok,
    ensures
        movement_of(runner, rec)->Ok_0.wf(),
{
}

/// The base that a value of the feed stands for.
pub fn base_value_to_option_u8(base: &BaseValue) -> (r: Result<Option<u8>, ClassificationError>)
    ensures
        r == base_of(base@),
        r is Ok ==> base_in_range(r->Ok_0),
{
    match base {
        BaseValue::Null => Ok(None),
        BaseValue::Code(code) => {
            let c = code.as_str();
            if text_eq(c, "1B") {
                Ok(Some(1))
            } else if text_eq(c, "2B") {
                Ok(Some(2))
            } else if text_eq(c, "3B") {
                Ok(Some(3))
            } else if text_eq(c, "4B") || text_eq(c, "score") {
                Ok(Some(4))
            } else {
                Err(ClassificationError::MalformedScalar(Scalar::BaseCode))
            }
        },
        BaseValue::Other => Err(ClassificationError::MalformedScalar(Scalar::BaseCode)),
    }
}

impl Movement {
    /// The movement of the runner `runner` that a movement record
    /// describes.
    pub fn from_record(runner: String, rec: &MovementRecord) -> (r: Result<
        Movement,
        ClassificationError,
    >)
        ensures
            agrees(r, movement_of(runner@, rec@)),
            r is Ok ==> r->Ok_0@.wf(),
    {
        let start_base = match base_value_to_option_u8(&rec.start) {
            Ok(b) => b,
            Err(e) => { return Err(e); },
        };
        let end_base = match base_value_to_option_u8(&rec.end) {
            Ok(b) => b,
            Err(e) => { return Err(e); },
        };
        let is_out = match rec.is_out {
            Some(b) => b,
            None => false,
        };
        Ok(Movement { runner, start_base, end_base, is_out })
    }
}

} // verus!
