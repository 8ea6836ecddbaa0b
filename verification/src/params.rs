//! Untyped parameter bags, parameter schemas, and schema validation.
//!
//! A request arrives with an untyped bag of named parameter values. Each
//! operation declares a schema: an ordered list of fields, each required or
//! carrying a default. Validation turns a bag into typed parameters — the
//! schema's fields in order, each with its string value — or reports the
//! first offending field.
use vstd::prelude::*;

verus! {

/// One untyped parameter value as received on the channel. The adapter's
/// operations only consume string-valued fields; every other shape is kept
/// just far enough to be recognized as not a string.
#[derive(Clone, PartialEq, Eq, Debug)]
pub enum ParamValue {
    VStr(String),
    VInt(i64),
    VBool(bool),
    VNull,
    VOther,
}

impl ParamValue {
    /// Whether this value is a string.
    pub open spec fn is_string(&self) -> bool {
        matches!(self, ParamValue::VStr(_))
    }

    /// The characters of a string value; empty for any other shape.
    pub open spec fn string_view(&self) -> Seq<char> {
        match self {
            ParamValue::VStr(s) => s@,
            _ => Seq::empty(),
        }
    }
}

/// The untyped parameter bag of one request: named values in arrival order.
#[derive(Clone, PartialEq, Eq, Debug)]
pub struct RawParams {
    pub fields: Vec<(String, ParamValue)>,
}

/// The first value bound to `name` in the bag, if any.
pub open spec fn lookup_field(fields: Seq<(String, ParamValue)>, name: Seq<char>) -> Option<
    ParamValue,
>
    decreases fields.len(),
{
    if fields.len() == 0 {
        None
    } else if fields[0].0@ == name {
        Some(fields[0].1)
    } else {
        lookup_field(fields.drop_first(), name)
    }
}

impl RawParams {
    /// The first value bound to `name`, if any.
    pub fn get<'a>(&'a self, name: &String) -> (r: Option<&'a ParamValue>)
        ensures
            match r {
                Some(v) => lookup_field(self.fields@, name@) == Some(*v),
                None => lookup_field(self.fields@, name@) is None,
            },
    {
        let n = self.fields.len();
        proof {
            assert(self.fields@.skip(0) =~= self.fields@);
        }
        let mut i: usize = 0;
        while i < n
            invariant
                n == self.fields@.len(),
                i <= n,
                lookup_field(self.fields@, name@) == lookup_field(
                    self.fields@.skip(i as int),
                    name@,
                ),
            decreases n - i,
        {
            proof {
                assert(self.fields@.skip(i as int)[0] == self.fields@[i as int]);
            }
            if self.fields[i].0 == *name {
                return Some(&self.fields[i].1);
            }
            proof {
                assert(self.fields@.skip(i as int).drop_first() =~= self.fields@.skip(
                    i as int + 1,
                ));
            }
            i += 1;
        }
        proof {
            assert(self.fields@.skip(n as int) =~= Seq::<(String, ParamValue)>::empty());
        }
        None
    }
}

/// One declared field of an operation's parameter schema. All of the
/// adapter's fields are string-typed; a field is either required or filled
/// with `default_value` when the request leaves it out.
pub struct FieldSpec {
    pub name: String,
    pub required: bool,
    pub default_value: String,
}

/// A validation failure, naming the offending field.
#[derive(Clone, PartialEq, Eq, Debug)]
pub enum ValidationError {
    MissingField(String),
    WrongType(String),
}

/// The mathematical shape of a validation failure.
pub enum ValidationIssue {
    IssueMissing(Seq<char>),
    IssueWrongType(Seq<char>),
}

impl ValidationError {
    /// The issue this error reports.
    pub open spec fn issue(&self) -> ValidationIssue {
        match self {
            ValidationError::MissingField(f) => ValidationIssue::IssueMissing(f@),
            ValidationError::WrongType(f) => ValidationIssue::IssueWrongType(f@),
        }
    }
}

/// The characters of typed parameters: each field's name and value.
pub open spec fn typed_view(v: Seq<(String, String)>) -> Seq<(Seq<char>, Seq<char>)> {
    Seq::new(v.len(), |i: int| (v[i].0@, v[i].1@))
}

/// Validation of the first `n` schema fields against a bag: the typed
/// parameters so far, or the first issue found in schema order. A field
/// present as a string is taken verbatim; one present with another shape is
/// a type error; an absent required field is a missing-field error; an
/// absent optional field takes its default. Fields of the bag that no
/// schema field names are ignored.
pub open spec fn spec_validate_prefix(
    schema: Seq<FieldSpec>,
    n: int,
    bag: Seq<(String, ParamValue)>,
) -> Result<Seq<(Seq<char>, Seq<char>)>, ValidationIssue>
    decreases n,
{
    if n <= 0 {
        Ok(Seq::empty())
    } else {
        match spec_validate_prefix(schema, n - 1, bag) {
            Err(e) => Err(e),
            Ok(acc) => {
                let f = schema[n - 1];
                match lookup_field(bag, f.name@) {
                    Some(v) => if v.is_string() {
                        Ok(acc.push((f.name@, v.string_view())))
                    } else {
                        Err(ValidationIssue::IssueWrongType(f.name@))
                    },
                    None => if f.required {
                        Err(ValidationIssue::IssueMissing(f.name@))
                    } else {
                        Ok(acc.push((f.name@, f.default_value@)))
                    },
                }
            },
        }
    }
}

/// Validation of a whole schema against a bag.
pub open spec fn spec_validate(schema: Seq<FieldSpec>, bag: Seq<(String, ParamValue)>) -> Result<
    Seq<(Seq<char>, Seq<char>)>,
    ValidationIssue,
> {
    spec_validate_prefix(schema, schema.len() as int, bag)
}

/// Successful validation of the first `n` schema fields yields exactly one
/// typed parameter per field, each under its schema field's name.
pub proof fn lemma_validate_prefix_len(
    schema: Seq<FieldSpec>,
    n: int,
    bag: Seq<(String, ParamValue)>,
)
    requires
        0 <= n,
    ensures
        spec_validate_prefix(schema, n, bag) matches Ok(acc) ==> acc.len() == n && (forall|i: int|
            0 <= i < n ==> (#[trigger] acc[i]).0 == schema[i].name@),
    decreases n,
{
    if n > 0 {
        lemma_validate_prefix_len(schema, n - 1, bag);
    }
}

/// An issue found among the first `m` schema fields is the issue reported
/// for every longer prefix: validation keeps the first failure.
proof fn lemma_issue_persists(
    schema: Seq<FieldSpec>,
    m: int,
    n: int,
    bag: Seq<(String, ParamValue)>,
)
    requires
        0 <= m <= n,
        spec_validate_prefix(schema, m, bag) is Err,
    ensures
        spec_validate_prefix(schema, n, bag) == spec_validate_prefix(schema, m, bag),
    decreases n - m,
{
    if m < n {
        lemma_issue_persists(schema, m, n - 1, bag);
    }
}

/// Validate a parameter bag against a schema: the typed parameters in
/// schema order, or the first offending field.
pub fn validate(schema: &Vec<FieldSpec>, params: &RawParams) -> (r: Result<
    Vec<(String, String)>,
    ValidationError,
>)
    ensures
        match r {
            Ok(typed) => spec_validate(schema@, params.fields@) == Ok::<_, ValidationIssue>(
                typed_view(typed@),
            ),
            Err(e) => spec_validate(schema@, params.fields@) == Err::<
                Seq<(Seq<char>, Seq<char>)>,
                _,
            >(e.issue()),
        },
{
    let n = schema.len();
    let mut out: Vec<(String, String)> = Vec::new();
    proof {
        assert(typed_view(out@) =~= Seq::<(Seq<char>, Seq<char>)>::empty());
    }
    let mut i: usize = 0;
    while i < n
        invariant
            n == schema@.len(),
            i <= n,
            spec_validate_prefix(schema@, i as int, params.fields@) == Ok::<_, ValidationIssue>(
                typed_view(out@),
            ),
        decreases n - i,
    {
        let f = &schema[i];
        let ghost old_out = out@;
        match params.get(&f.name) {
            Some(v) => {
                match v {
                    ParamValue::VStr(s) => {
                        out.push((f.name.clone(), s.clone()));
                    },
                    _ => {
                        proof {
                            lemma_issue_persists(schema@, i as int + 1, n as int, params.fields@);
                        }
                        return Err(ValidationError::WrongType(f.name.clone()));
                    },
                }
            },
            None => {
                if f.required {
                    proof {
                        lemma_issue_persists(schema@, i as int + 1, n as int, params.fields@);
                    }
                    return Err(ValidationError::MissingField(f.name.clone()));
                } else {
                    out.push((f.name.clone(), f.default_value.clone()));
                }
            },
        }
        proof {
            assert(typed_view(out@) =~~= typed_view(old_out).push(
                (out@.last().0@, out@.last().1@),
            ));
        }
        i += 1;
    }
    Ok(out)
}

} // verus!
