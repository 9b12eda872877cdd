use vstd::prelude::*;
use crate::action::{MacroAction, MacroMetadata};
use crate::macros::Macro;

verus! {

/// One named field of a persisted recording, as a reader finds it.
#[derive(Debug, Clone)]
pub enum Field {
    /// The `actions` field: the action log.
    Actions(Vec<MacroAction>),
    /// The `metadata` field.
    Metadata(MacroMetadata),
    /// A field of any other name.
    Unknown(String),
}

/// Why a persisted recording cannot be read.
#[derive(Debug, Clone, PartialEq, Eq)]
pub enum DecodeError {
    /// A field other than `actions` and `metadata`; its name.
    UnknownField(String),
    /// The `actions` field is missing.
    MissingActions,
    /// The `metadata` field is missing.
    MissingMetadata,
}

/// The name of the first unknown field, if there is one.
pub open spec fn first_unknown(fields: Seq<Field>) -> Option<Seq<char>>
    decreases fields.len(),
{
    if fields.len() == 0 {
        None
    } else {
        match fields[0] {
            Field::Unknown(n) => Some(n@),
            _ => first_unknown(fields.drop_first()),
        }
    }
}

/// The log of the last `actions` field, if there is one.
pub open spec fn last_actions(fields: Seq<Field>) -> Option<Seq<MacroAction>>
    decreases fields.len(),
{
    if fields.len() == 0 {
        None
    } else {
        match last_actions(fields.drop_first()) {
            Some(a) => Some(a),
            None => match fields[0] {
                Field::Actions(v) => Some(v@),
                _ => None,
            },
        }
    }
}

/// The last `metadata` field, if there is one.
pub open spec fn last_metadata(fields: Seq<Field>) -> Option<MacroMetadata>
    decreases fields.len(),
{
    if fields.len() == 0 {
        None
    } else {
        match last_metadata(fields.drop_first()) {
            Some(m) => Some(m),
            None => match fields[0] {
                Field::Metadata(m) => Some(m),
                _ => None,
            },
        }
    }
}

/// Whether `fields` is the persisted form of a log and its metadata: the
/// `actions` field, then the `metadata` field, and nothing else.
pub open spec fn persists(fields: Seq<Field>, log: Seq<MacroAction>, meta: MacroMetadata) -> bool {
    &&& fields.len() == 2
    &&& fields[0] matches Field::Actions(v) && v@ == log
    &&& fields[1] == Field::Metadata(meta)
}

impl Macro {
    /// Builds an idle recorder from the fields of a persisted recording.
    ///
    /// The first field of an unknown name is an error; so is a missing
    /// `actions` field, and then a missing `metadata` field. Where a field
    /// comes twice, the later one counts.
    pub fn from_fields(fields: Vec<Field>) -> (r: Result<Macro, DecodeError>)
        ensures
            first_unknown(fields@) is Some ==> (r matches Err(DecodeError::UnknownField(s)) && s@
                == first_unknown(fields@)->Some_0),
            first_unknown(fields@) is None && last_actions(fields@) is None ==> r == Err::<
                Macro,
                DecodeError,
            >(DecodeError::MissingActions),
            first_unknown(fields@) is None && last_actions(fields@) is Some && last_metadata(
                fields@,
            ) is None ==> r == Err::<Macro, DecodeError>(DecodeError::MissingMetadata),
            first_unknown(fields@) is None && last_actions(fields@) is Some && last_metadata(
                fields@,
            ) is Some ==> (r matches Ok(m) && m.log() == last_actions(fields@)->Some_0 && m.meta()
                == last_metadata(fields@)->Some_0 && !m.recording() && m.last() == (0i32, 0i32)),
    {
        let ghost all = fields@;
        let mut rest = fields;
        let mut unknown: Option<String> = None;
        let mut actions: Option<Vec<MacroAction>> = None;
        let mut metadata: Option<MacroMetadata> = None;
        while rest.len() > 0
            invariant
                rest@ == all.take(rest@.len() as int),
                rest@.len() <= all.len(),
                match unknown {
                    Some(s) => first_unknown(all.skip(rest@.len() as int)) == Some(s@),
                    None => first_unknown(all.skip(rest@.len() as int)) is None,
                },
                match actions {
                    Some(v) => last_actions(all.skip(rest@.len() as int)) == Some(v@),
                    None => last_actions(all.skip(rest@.len() as int)) is None,
                },
                metadata == last_metadata(all.skip(rest@.len() as int)),
            decreases rest@.len(),
        {
            let ghost k = rest@.len() as int;
            let field = rest.pop().unwrap();
            assert(rest@ =~= all.take(k - 1));
            assert(all.skip(k - 1).drop_first() =~= all.skip(k));
            assert(all.skip(k - 1)[0] == field);
            match field {
                Field::Unknown(name) => {
                    unknown = Some(name);
                },
                Field::Actions(v) => {
                    if actions.is_none() {
                        actions = Some(v);
                    }
                },
                Field::Metadata(m) => {
                    if metadata.is_none() {
                        metadata = Some(m);
                    }
                },
            }
        }
        assert(all.skip(0) =~= all);
        match unknown {
            Some(name) => Err(DecodeError::UnknownField(name)),
            None => match actions {
                None => Err(DecodeError::MissingActions),
                Some(v) => match metadata {
                    None => Err(DecodeError::MissingMetadata),
                    Some(m) => Ok(Macro::from_parts(v, m)),
                },
            },
        }
    }

    /// The persisted form of the recorder: its log and its metadata.
    pub fn into_fields(self) -> (r: Vec<Field>)
        ensures
            persists(r@, self.log(), self.meta()),
    {
        let meta = self.metadata();
        let actions = self.into_actions();
        let mut out: Vec<Field> = Vec::new();
        out.push(Field::Actions(actions));
        out.push(Field::Metadata(meta));
        out
    }
}

/// Reading back what was written gives the same log and metadata: the
/// persisted form of a log and its metadata (what `into_fields` returns)
/// has no unknown field, and its `actions` and `metadata` fields are the
/// log and metadata, which `from_fields` then takes over.
pub proof fn lemma_round_trip(fields: Seq<Field>, log: Seq<MacroAction>, meta: MacroMetadata)
    requires
        persists(fields, log, meta),
    ensures
        first_unknown(fields) is None,
        last_actions(fields) == Some(log),
        last_metadata(fields) == Some(meta),
{
    let rest = fields.drop_first();
    let empty = rest.drop_first();
    assert(empty.len() == 0);
    assert(rest[0] == fields[1]);
    assert(first_unknown(empty) is None);
    assert(first_unknown(rest) is None);
    assert(last_actions(empty) is None);
    assert(last_actions(rest) is None);
    assert(last_metadata(empty) is None);
    assert(last_metadata(rest) == Some(meta));
}

} // verus!
