use vstd::prelude::*;

verus! {

/// A field that one of the subcommands requires.
#[derive(Debug, Clone, Copy, PartialEq, Eq, Structural)]
pub enum Field {
    DomainName,
    SubDomain,
    RecordType,
    Value,
    Id,
    Domain,
}

/// The long flag that supplies a field on the command line.
pub open spec fn flag_spec(f: Field) -> Seq<char> {
    match f {
        Field::DomainName => "--domain-name"@,
        Field::SubDomain => "--sub-domain"@,
        Field::RecordType => "--record-type"@,
        Field::Value => "--value"@,
        Field::Id => "--id"@,
        Field::Domain => "--domain"@,
    }
}

impl Field {
    pub fn flag(&self) -> (r: &'static str)
        ensures
            r@ == flag_spec(*self),
    {
        match self {
            Field::DomainName => "--domain-name",
            Field::SubDomain => "--sub-domain",
            Field::RecordType => "--record-type",
            Field::Value => "--value",
            Field::Id => "--id",
            Field::Domain => "--domain",
        }
    }
}

/// Why a command line names no valid request.
#[derive(Debug, Clone, Copy, PartialEq, Eq, Structural)]
pub enum ArgError {
    Missing(Field),
}

pub open spec fn arg_message_spec(e: ArgError) -> Seq<char> {
    match e {
        ArgError::Missing(f) => "the following required argument was not provided: "@ + flag_spec(f),
    }
}

impl ArgError {
    /// The message shown with the usage text.
    pub fn message(&self) -> (r: String)
        ensures
            r@ == arg_message_spec(*self),
    {
        match self {
            ArgError::Missing(f) => {
                let mut r = String::from_str("the following required argument was not provided: ");
                r.append(f.flag());
                r
            },
        }
    }
}

/// One remote operation, with every field it needs.
#[derive(Debug)]
pub enum Request {
    Add { domain_name: String, sub_domain: String, record_type: String, value: String },
    Update { record_id: String, sub_domain: String, record_type: String, value: String },
    List { domain: String },
}

/// A command line as read: the subcommand, if any, and whichever of its
/// fields were given.
#[derive(Debug)]
pub enum Invocation {
    NoSubcommand,
    Add {
        domain_name: Option<String>,
        sub_domain: Option<String>,
        record_type: Option<String>,
        value: Option<String>,
    },
    Update {
        id: Option<String>,
        sub_domain: Option<String>,
        record_type: Option<String>,
        value: Option<String>,
    },
    List { domain: Option<String> },
}

/// The first absent field of a subcommand, in the order of its flags.
pub open spec fn first_missing(inv: Invocation) -> Option<Field> {
    match inv {
        Invocation::NoSubcommand => None,
        Invocation::Add { domain_name, sub_domain, record_type, value } => {
            if domain_name is None {
                Some(Field::DomainName)
            } else if sub_domain is None {
                Some(Field::SubDomain)
            } else if record_type is None {
                Some(Field::RecordType)
            } else if value is None {
                Some(Field::Value)
            } else {
                None
            }
        },
        Invocation::Update { id, sub_domain, record_type, value } => {
            if id is None {
                Some(Field::Id)
            } else if sub_domain is None {
                Some(Field::SubDomain)
            } else if record_type is None {
                Some(Field::RecordType)
            } else if value is None {
                Some(Field::Value)
            } else {
                None
            }
        },
        Invocation::List { domain } => {
            if domain is None {
                Some(Field::Domain)
            } else {
                None
            }
        },
    }
}

/// The request that a command line with no absent field names; `None` where
/// it names no subcommand.
pub open spec fn request_spec(inv: Invocation) -> Result<Option<Request>, ArgError> {
    match first_missing(inv) {
        Some(f) => Err(ArgError::Missing(f)),
        None => match inv {
            Invocation::NoSubcommand => Ok(None),
            Invocation::Add { domain_name, sub_domain, record_type, value } => Ok(
                Some(
                    Request::Add {
                        domain_name: domain_name->0,
                        sub_domain: sub_domain->0,
                        record_type: record_type->0,
                        value: value->0,
                    },
                ),
            ),
            Invocation::Update { id, sub_domain, record_type, value } => Ok(
                Some(
                    Request::Update {
                        record_id: id->0,
                        sub_domain: sub_domain->0,
                        record_type: record_type->0,
                        value: value->0,
                    },
                ),
            ),
            Invocation::List { domain } => Ok(Some(Request::List { domain: domain->0 })),
        },
    }
}

/// Turns a command line into the request it names, or the first required
/// field that it leaves out.
pub fn request_of(inv: Invocation) -> (r: Result<Option<Request>, ArgError>)
    ensures
        r == request_spec(inv),
{
    match inv {
        Invocation::NoSubcommand => Ok(None),
        Invocation::Add { domain_name, sub_domain, record_type, value } => {
            match (domain_name, sub_domain, record_type, value) {
                (None, _, _, _) => Err(ArgError::Missing(Field::DomainName)),
                (Some(_), None, _, _) => Err(ArgError::Missing(Field::SubDomain)),
                (Some(_), Some(_), None, _) => Err(ArgError::Missing(Field::RecordType)),
                (Some(_), Some(_), Some(_), None) => Err(ArgError::Missing(Field::Value)),
                (Some(d), Some(s), Some(t), Some(v)) => Ok(
                    Some(Request::Add { domain_name: d, sub_domain: s, record_type: t, value: v }),
                ),
            }
        },
        Invocation::Update { id, sub_domain, record_type, value } => {
            match (id, sub_domain, record_type, value) {
                (None, _, _, _) => Err(ArgError::Missing(Field::Id)),
                (Some(_), None, _, _) => Err(ArgError::Missing(Field::SubDomain)),
                (Some(_), Some(_), None, _) => Err(ArgError::Missing(Field::RecordType)),
                (Some(_), Some(_), Some(_), None) => Err(ArgError::Missing(Field::Value)),
                (Some(i), Some(s), Some(t), Some(v)) => Ok(
                    Some(Request::Update { record_id: i, sub_domain: s, record_type: t, value: v }),
                ),
            }
        },
        Invocation::List { domain } => match domain {
            None => Err(ArgError::Missing(Field::Domain)),
            Some(d) => Ok(Some(Request::List { domain: d })),
        },
    }
}

} // verus!
