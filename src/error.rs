use vstd::prelude::*;

verus! {

/// One failed check on one field of a request.
#[derive(Clone, Debug)]
pub struct ValidationResponse {
    pub field: String,
    pub message: String,
}

/// What went wrong, as a closed set of kinds.
#[derive(Clone, Debug)]
pub enum ErrorKind {
    NotImplemented,
    Unexpected,
    Unauthorized,
    NotFound,
    BadRequest,
    Unsupported,
    Duplicate,
    ValidationError(Box<Vec<ValidationResponse>>),
    SerializeError,
    DeserializeError,
}

/// The name of an error kind.
pub open spec fn kind_name(k: ErrorKind) -> Seq<char> {
    match k {
        ErrorKind::NotImplemented => "NotImplemented"@,
        ErrorKind::Unexpected => "Unexpected"@,
        ErrorKind::Unauthorized => "Unauthorized"@,
        ErrorKind::NotFound => "NotFound"@,
        ErrorKind::BadRequest => "BadRequest"@,
        ErrorKind::Unsupported => "Unsupported"@,
        ErrorKind::Duplicate => "Duplicate"@,
        ErrorKind::ValidationError(_) => "ValidationError"@,
        ErrorKind::SerializeError => "SerializeError"@,
        ErrorKind::DeserializeError => "DeserializeError"@,
    }
}

impl ErrorKind {
    /// The kind's name, as it is displayed.
    pub fn name(&self) -> (r: String)
        ensures
            r@ == kind_name(*self),
    {
        match self {
            ErrorKind::NotImplemented => "NotImplemented".to_string(),
            ErrorKind::Unexpected => "Unexpected".to_string(),
            ErrorKind::Unauthorized => "Unauthorized".to_string(),
            ErrorKind::NotFound => "NotFound".to_string(),
            ErrorKind::BadRequest => "BadRequest".to_string(),
            ErrorKind::Unsupported => "Unsupported".to_string(),
            ErrorKind::Duplicate => "Duplicate".to_string(),
            ErrorKind::ValidationError(_) => "ValidationError".to_string(),
            ErrorKind::SerializeError => "SerializeError".to_string(),
            ErrorKind::DeserializeError => "DeserializeError".to_string(),
        }
    }
}

/// An error kind with optional human-readable context and the time (in
/// nanoseconds) at which it was raised.
#[derive(Clone, Debug)]
pub struct Error {
    pub tag: Option<String>,
    pub message: Option<String>,
    pub method_name: Option<String>,
    pub error_type: ErrorKind,
    pub info: Option<Vec<String>>,
    pub timestamp: u64,
}

/// The text held by an optional string.
pub open spec fn opt_text(o: Option<String>) -> Option<Seq<char>> {
    match o {
        Some(s) => Some(s@),
        None => None,
    }
}

/// The texts of a list of strings.
pub open spec fn texts(v: Seq<String>) -> Seq<Seq<char>> {
    v.map_values(|s: String| s@)
}

/// The info lines of an error, an absent list read as empty.
pub open spec fn info_texts(e: Error) -> Seq<Seq<char>> {
    match e.info {
        Some(v) => texts(v@),
        None => Seq::empty(),
    }
}

/// `e` is a fresh error of kind `kind` raised at `timestamp`, with no context.
pub open spec fn is_fresh(e: Error, kind: ErrorKind, timestamp: u64) -> bool {
    &&& e.error_type == kind
    &&& e.timestamp == timestamp
    &&& e.tag.is_none()
    &&& e.message.is_none()
    &&& e.method_name.is_none()
    &&& e.info.is_none()
}

/// `e` has kind `kind` and carries exactly the message `msg`.
pub open spec fn has_message(e: Error, kind: ErrorKind, msg: Seq<char>) -> bool {
    &&& e.error_type == kind
    &&& opt_text(e.message) == Some(msg)
}

impl Error {
    pub fn new(error_type: ErrorKind, timestamp: u64) -> (r: Self)
        ensures
            is_fresh(r, error_type, timestamp),
    {
        Error { tag: None, message: None, method_name: None, error_type, info: None, timestamp }
    }

    pub fn validation_response(validation_response: Vec<ValidationResponse>, timestamp: u64) -> (r: Self)
        ensures
            is_fresh(r, ErrorKind::ValidationError(Box::new(validation_response)), timestamp),
    {
        Self::new(ErrorKind::ValidationError(Box::new(validation_response)), timestamp)
    }

    pub fn serialize(timestamp: u64) -> (r: Self)
        ensures
            is_fresh(r, ErrorKind::SerializeError, timestamp),
    {
        Self::new(ErrorKind::SerializeError, timestamp)
    }

    pub fn deserialize(timestamp: u64) -> (r: Self)
        ensures
            is_fresh(r, ErrorKind::DeserializeError, timestamp),
    {
        Self::new(ErrorKind::DeserializeError, timestamp)
    }

    pub fn unexpected(timestamp: u64) -> (r: Self)
        ensures
            is_fresh(r, ErrorKind::Unexpected, timestamp),
    {
        Self::new(ErrorKind::Unexpected, timestamp)
    }

    pub fn not_implemented(timestamp: u64) -> (r: Self)
        ensures
            is_fresh(r, ErrorKind::NotImplemented, timestamp),
    {
        Self::new(ErrorKind::NotImplemented, timestamp)
    }

    pub fn unauthorized(timestamp: u64) -> (r: Self)
        ensures
            is_fresh(r, ErrorKind::Unauthorized, timestamp),
    {
        Self::new(ErrorKind::Unauthorized, timestamp)
    }

    pub fn not_found(timestamp: u64) -> (r: Self)
        ensures
            is_fresh(r, ErrorKind::NotFound, timestamp),
    {
        Self::new(ErrorKind::NotFound, timestamp)
    }

    pub fn bad_request(timestamp: u64) -> (r: Self)
        ensures
            is_fresh(r, ErrorKind::BadRequest, timestamp),
    {
        Self::new(ErrorKind::BadRequest, timestamp)
    }

    pub fn unsupported(timestamp: u64) -> (r: Self)
        ensures
            is_fresh(r, ErrorKind::Unsupported, timestamp),
    {
        Self::new(ErrorKind::Unsupported, timestamp)
    }

    pub fn duplicate(timestamp: u64) -> (r: Self)
        ensures
            is_fresh(r, ErrorKind::Duplicate, timestamp),
    {
        Self::new(ErrorKind::Duplicate, timestamp)
    }

    pub fn add_tag(self, tag: &str) -> (r: Self)
        ensures
            r == (Error { tag: r.tag, ..self }),
            opt_text(r.tag) == Some(tag@),
    {
        let mut e = self;
        e.tag = Some(tag.to_string());
        e
    }

    pub fn add_message(self, message: &str) -> (r: Self)
        ensures
            r == (Error { message: r.message, ..self }),
            opt_text(r.message) == Some(message@),
    {
        let mut e = self;
        e.message = Some(message.to_string());
        e
    }

    /// Appends one line of info, starting the list if there was none.
    pub fn add_info(self, info: &str) -> (r: Self)
        ensures
            r == (Error { info: r.info, ..self }),
            r.info.is_some(),
            info_texts(r) == info_texts(self).push(info@),
    {
        let mut e = self;
        let line = info.to_string();
        let lines = match e.info {
            Some(v) => {
                let mut v = v;
                v.push(line);
                v
            },
            None => vec![line],
        };
        e.info = Some(lines);
        proof {
            assert(texts(e.info.unwrap()@) =~= info_texts(self).push(info@));
        }
        e
    }

    pub fn add_method_name(self, method_name: &str) -> (r: Self)
        ensures
            r == (Error { method_name: r.method_name, ..self }),
            opt_text(r.method_name) == Some(method_name@),
    {
        let mut e = self;
        e.method_name = Some(method_name.to_string());
        e
    }
}

} // verus!
