//! The telemetry record data model: values, records, scopes, resources,
//! and their mathematical views.

use vstd::prelude::*;

use crate::severity::Severity;

verus! {

/// Wrapper for string-like values.
#[derive(Debug)]
pub struct StringValue(pub String);

impl View for StringValue {
    type V = Seq<char>;

    open spec fn view(&self) -> Seq<char> {
        self.0@
    }
}

impl Clone for StringValue {
    fn clone(&self) -> (r: Self)
        ensures
            r == *self,
    {
        StringValue(self.0.clone())
    }
}

impl StringValue {
    /// Returns a string slice to this value.
    pub fn as_str(&self) -> (r: &str)
        ensures
            r@ == self@,
    {
        self.0.as_str()
    }

    /// Create a `StringValue` from a static string.
    pub fn from_static(s: &'static str) -> (r: StringValue)
        ensures
            r@ == s@,
    {
        StringValue(s.to_owned())
    }

    /// Create a `StringValue` owning the given string.
    pub fn from_string(s: String) -> (r: StringValue)
        ensures
            r@ == s@,
    {
        StringValue(s)
    }
}

impl PartialEq for StringValue {
    fn eq(&self, other: &StringValue) -> (r: bool) {
        self.0 == other.0
    }
}

impl vstd::std_specs::cmp::PartialEqSpecImpl for StringValue {
    open spec fn obeys_eq_spec() -> bool {
        true
    }

    open spec fn eq_spec(&self, other: &StringValue) -> bool {
        self@ == other@
    }
}

/// A value carried by a log record's body or attributes: a recursive
/// tagged value.
#[derive(Debug)]
pub enum AnyValue {
    /// An integer value.
    Int(i64),
    /// A double value, carried as its raw bit pattern so that the pipeline
    /// itself never computes with it.
    Double(u64),
    /// A string value.
    String(StringValue),
    /// A boolean value.
    Boolean(bool),
    /// A byte array.
    Bytes(Vec<u8>),
    /// An ordered list of values.
    ListAny(Vec<AnyValue>),
    /// An ordered map of string keys to values, arbitrarily nested.
    ValueMap(Vec<(StringValue, AnyValue)>),
}

/// The mathematical value of an [`AnyValue`].
#[verifier::ext_equal]
pub enum AnyValueSpec {
    /// An integer value.
    Int(i64),
    /// A double value, as its raw bit pattern.
    Double(u64),
    /// A string value.
    StringV(Seq<char>),
    /// A boolean value.
    Boolean(bool),
    /// A byte array.
    Bytes(Seq<u8>),
    /// An ordered list of values.
    ListAny(Seq<AnyValueSpec>),
    /// An ordered map of string keys to values.
    ValueMap(Seq<(Seq<char>, AnyValueSpec)>),
}

/// The mathematical value of an [`AnyValue`].
pub open spec fn any_value_view(v: AnyValue) -> AnyValueSpec
    decreases v,
{
    match v {
        AnyValue::Int(x) => AnyValueSpec::Int(x),
        AnyValue::Double(x) => AnyValueSpec::Double(x),
        AnyValue::String(x) => AnyValueSpec::StringV(x@),
        AnyValue::Boolean(x) => AnyValueSpec::Boolean(x),
        AnyValue::Bytes(x) => AnyValueSpec::Bytes(x@),
        AnyValue::ListAny(x) => AnyValueSpec::ListAny(
            Seq::new(
                x@.len(),
                |i: int|
                    if 0 <= i < x@.len() {
                        proof {
                            lemma_value_decreases_to_element(v, i);
                        }
                        any_value_view(x@[i])
                    } else {
                        vstd::pervasive::arbitrary()
                    },
            ),
        ),
        AnyValue::ValueMap(x) => AnyValueSpec::ValueMap(
            Seq::new(
                x@.len(),
                |i: int|
                    if 0 <= i < x@.len() {
                        proof {
                            lemma_value_decreases_to_entry(v, i);
                        }
                        (x@[i].0@, any_value_view(x@[i].1))
                    } else {
                        vstd::pervasive::arbitrary()
                    },
            ),
        ),
    }
}

/// A list value is larger, in the termination order, than each of its
/// elements.
pub proof fn lemma_value_decreases_to_element(v: AnyValue, i: int)
    requires
        v is ListAny,
        0 <= i < v->ListAny_0@.len(),
    ensures
        decreases_to!(v => v->ListAny_0@[i]),
{
    let x = v->ListAny_0;
    assert(decreases_to!(v => x));
    assert(decreases_to!(x => x@));
    assert(decreases_to!(x@ => x@[i]));
}

/// A map value is larger, in the termination order, than the value of
/// each of its entries.
pub proof fn lemma_value_decreases_to_entry(v: AnyValue, i: int)
    requires
        v is ValueMap,
        0 <= i < v->ValueMap_0@.len(),
    ensures
        decreases_to!(v => v->ValueMap_0@[i].1),
{
    let x = v->ValueMap_0;
    assert(decreases_to!(v => x));
    assert(decreases_to!(x => x@));
    assert(decreases_to!(x@ => x@[i]));
    assert(decreases_to!(x@[i] => x@[i].1));
}

impl View for AnyValue {
    type V = AnyValueSpec;

    open spec fn view(&self) -> AnyValueSpec {
        any_value_view(*self)
    }
}

/// Two list values whose elements agree pointwise have the same value.
pub proof fn lemma_list_views_equal(x: Vec<AnyValue>, y: Vec<AnyValue>)
    requires
        x@.len() == y@.len(),
        forall|j: int| 0 <= j < x@.len() ==> #[trigger] x@[j]@ == y@[j]@,
    ensures
        any_value_view(AnyValue::ListAny(x)) == any_value_view(AnyValue::ListAny(y)),
{
    let vx = any_value_view(AnyValue::ListAny(x));
    let vy = any_value_view(AnyValue::ListAny(y));
    assert forall|k: int| 0 <= k < x@.len() implies vx->ListAny_0[k] == vy->ListAny_0[k] by {
        assert(vx->ListAny_0[k] == x@[k]@);
        assert(vy->ListAny_0[k] == y@[k]@);
    }
    assert(vx->ListAny_0 =~= vy->ListAny_0);
    assert(vx =~= vy);
}

/// Two map values whose keys and element values agree pointwise have the
/// same value.
pub proof fn lemma_map_views_equal(x: Vec<(StringValue, AnyValue)>, y: Vec<(StringValue, AnyValue)>)
    requires
        x@.len() == y@.len(),
        forall|j: int|
            0 <= j < x@.len() ==> #[trigger] x@[j].0@ == y@[j].0@ && x@[j].1@ == y@[j].1@,
    ensures
        any_value_view(AnyValue::ValueMap(x)) == any_value_view(AnyValue::ValueMap(y)),
{
    let vx = any_value_view(AnyValue::ValueMap(x));
    let vy = any_value_view(AnyValue::ValueMap(y));
    assert forall|k: int| 0 <= k < x@.len() implies vx->ValueMap_0[k] == vy->ValueMap_0[k] by {
        assert(vx->ValueMap_0[k] == (x@[k].0@, x@[k].1@));
        assert(vy->ValueMap_0[k] == (y@[k].0@, y@[k].1@));
    }
    assert(vx->ValueMap_0 =~= vy->ValueMap_0);
    assert(vx =~= vy);
}

impl Clone for AnyValue {
    fn clone(&self) -> (r: Self)
        ensures
            r@ == self@,
        decreases *self,
    {
        match self {
            AnyValue::Int(x) => AnyValue::Int(*x),
            AnyValue::Double(x) => AnyValue::Double(*x),
            AnyValue::String(x) => AnyValue::String(x.clone()),
            AnyValue::Boolean(x) => AnyValue::Boolean(*x),
            AnyValue::Bytes(x) => {
                let c = x.clone();
                proof {
                    assert(c@ =~= x@);
                }
                AnyValue::Bytes(c)
            },
            AnyValue::ListAny(x) => {
                let n = x.len();
                let mut out: Vec<AnyValue> = Vec::new();
                let mut i: usize = 0;
                while i < n
                    invariant
                        n == x@.len(),
                        i <= n,
                        out@.len() == i,
                        forall|j: int| 0 <= j < i ==> #[trigger] out@[j]@ == x@[j]@,
                    decreases n - i,
                {
                    proof {
                        lemma_value_decreases_to_element(*self, i as int);
                    }
                    out.push(x[i].clone());
                    i = i + 1;
                }
                let r = AnyValue::ListAny(out);
                proof {
                    lemma_list_views_equal(r->ListAny_0, *x);
                }
                r
            },
            AnyValue::ValueMap(x) => {
                let n = x.len();
                let mut out: Vec<(StringValue, AnyValue)> = Vec::new();
                let mut i: usize = 0;
                while i < n
                    invariant
                        n == x@.len(),
                        i <= n,
                        out@.len() == i,
                        forall|j: int|
                            0 <= j < i ==> #[trigger] out@[j].0@ == x@[j].0@ && out@[j].1@
                                == x@[j].1@,
                    decreases n - i,
                {
                    proof {
                        lemma_value_decreases_to_entry(*self, i as int);
                    }
                    let k = x[i].0.clone();
                    let v = x[i].1.clone();
                    out.push((k, v));
                    i = i + 1;
                }
                let r = AnyValue::ValueMap(out);
                proof {
                    lemma_map_views_equal(r->ValueMap_0, *x);
                }
                r
            },
        }
    }
}

/// Whether two values have the same mathematical value. This decides
/// structural equality of [`AnyValue`].
pub fn any_value_eq(a: &AnyValue, b: &AnyValue) -> (r: bool)
    ensures
        r == (a@ == b@),
    decreases *a,
{
    match (a, b) {
        (AnyValue::Int(x), AnyValue::Int(y)) => x == y,
        (AnyValue::Double(x), AnyValue::Double(y)) => x == y,
        (AnyValue::String(x), AnyValue::String(y)) => x.0 == y.0,
        (AnyValue::Boolean(x), AnyValue::Boolean(y)) => x == y,
        (AnyValue::Bytes(x), AnyValue::Bytes(y)) => bytes_eq(x, y),
        (AnyValue::ListAny(x), AnyValue::ListAny(y)) => {
            if x.len() != y.len() {
                proof {
                    assert(a@->ListAny_0.len() == x@.len());
                    assert(b@->ListAny_0.len() == y@.len());
                }
                return false;
            }
            let n = x.len();
            let mut i: usize = 0;
            while i < n
                invariant
                    n == x@.len(),
                    n == y@.len(),
                    i <= n,
                    forall|j: int| 0 <= j < i ==> #[trigger] x@[j]@ == y@[j]@,
                decreases n - i,
            {
                proof {
                    lemma_value_decreases_to_element(*a, i as int);
                }
                if !any_value_eq(&x[i], &y[i]) {
                    proof {
                        assert(a@->ListAny_0[i as int] == x@[i as int]@);
                        assert(b@->ListAny_0[i as int] == y@[i as int]@);
                    }
                    return false;
                }
                i = i + 1;
            }
            proof {
                lemma_list_views_equal(*x, *y);
            }
            true
        },
        (AnyValue::ValueMap(x), AnyValue::ValueMap(y)) => {
            if x.len() != y.len() {
                proof {
                    assert(a@->ValueMap_0.len() == x@.len());
                    assert(b@->ValueMap_0.len() == y@.len());
                }
                return false;
            }
            let n = x.len();
            let mut i: usize = 0;
            while i < n
                invariant
                    n == x@.len(),
                    n == y@.len(),
                    i <= n,
                    forall|j: int|
                        #![trigger x@[j]]
                        0 <= j < i ==> (x@[j].0@ == y@[j].0@ && x@[j].1@ == y@[j].1@),
                decreases n - i,
            {
                proof {
                    lemma_value_decreases_to_entry(*a, i as int);
                }
                if !(x[i].0.0 == y[i].0.0) {
                    proof {
                        assert(a@->ValueMap_0[i as int] == (x@[i as int].0@, x@[i as int].1@));
                        assert(b@->ValueMap_0[i as int] == (y@[i as int].0@, y@[i as int].1@));
                    }
                    return false;
                }
                if !any_value_eq(&x[i].1, &y[i].1) {
                    proof {
                        assert(a@->ValueMap_0[i as int] == (x@[i as int].0@, x@[i as int].1@));
                        assert(b@->ValueMap_0[i as int] == (y@[i as int].0@, y@[i as int].1@));
                    }
                    return false;
                }
                proof {
                    assert(x@[i as int].0@ == y@[i as int].0@);
                    assert(x@[i as int].1@ == y@[i as int].1@);
                }
                i = i + 1;
            }
            proof {
                lemma_map_views_equal(*x, *y);
            }
            true
        },
        _ => false,
    }
}

/// Whether two byte vectors hold the same bytes.
fn bytes_eq(a: &Vec<u8>, b: &Vec<u8>) -> (r: bool)
    ensures
        r == (a@ == b@),
{
    if a.len() != b.len() {
        return false;
    }
    let n = a.len();
    let mut i: usize = 0;
    while i < n
        invariant
            n == a@.len(),
            n == b@.len(),
            i <= n,
            forall|j: int| 0 <= j < i ==> a@[j] == b@[j],
        decreases n - i,
    {
        if a[i] != b[i] {
            return false;
        }
        i = i + 1;
    }
    proof {
        assert(a@ =~= b@);
    }
    true
}

/// Trace context for records associated with spans.
#[derive(Debug, Clone, Copy, PartialEq, Eq, Structural)]
pub struct TraceContext {
    /// Trace id.
    pub trace_id: u128,
    /// Span id.
    pub span_id: u64,
    /// Trace flags.
    pub trace_flags: Option<u8>,
}

/// The mathematical value of a [`LogRecord`].
#[verifier::ext_equal]
pub struct LogRecordSpec {
    /// Record timestamp.
    pub timestamp: Option<u64>,
    /// Observation timestamp.
    pub observed_timestamp: Option<u64>,
    /// Trace context.
    pub trace_context: Option<TraceContext>,
    /// Original severity string.
    pub severity_text: Option<Seq<char>>,
    /// Normalized severity.
    pub severity_number: Option<Severity>,
    /// Record body.
    pub body: Option<AnyValueSpec>,
    /// Attributes, in insertion order.
    pub attributes: Seq<(Seq<char>, AnyValueSpec)>,
}

impl LogRecordSpec {
    /// The value of a record with every field unset.
    pub open spec fn empty() -> LogRecordSpec {
        LogRecordSpec {
            timestamp: None,
            observed_timestamp: None,
            trace_context: None,
            severity_text: None,
            severity_number: None,
            body: None,
            attributes: Seq::empty(),
        }
    }
}

/// A single structured telemetry record carried by the pipeline. Mutable
/// until exported; owned exclusively by the pipeline once enqueued.
///
/// Timestamps are nanoseconds since the epoch.
#[derive(Debug)]
pub struct LogRecord {
    /// Record timestamp.
    pub timestamp: Option<u64>,
    /// Timestamp for when the record was observed by the pipeline.
    pub observed_timestamp: Option<u64>,
    /// Trace context for records associated with spans.
    pub trace_context: Option<TraceContext>,
    /// The original severity string from the source.
    pub severity_text: Option<String>,
    /// The corresponding severity value, normalized.
    pub severity_number: Option<Severity>,
    /// Record body.
    pub body: Option<AnyValue>,
    /// Additional attributes associated with this record, in insertion
    /// order.
    pub attributes: Vec<(String, AnyValue)>,
}

impl View for LogRecord {
    type V = LogRecordSpec;

    open spec fn view(&self) -> LogRecordSpec {
        LogRecordSpec {
            timestamp: self.timestamp,
            observed_timestamp: self.observed_timestamp,
            trace_context: self.trace_context,
            severity_text: match self.severity_text {
                Some(s) => Some(s@),
                None => None,
            },
            severity_number: self.severity_number,
            body: match self.body {
                Some(b) => Some(b@),
                None => None,
            },
            attributes: Seq::new(
                self.attributes@.len(),
                |i: int| (self.attributes@[i].0@, self.attributes@[i].1@),
            ),
        }
    }
}

impl Clone for LogRecord {
    fn clone(&self) -> (r: Self)
        ensures
            r@ == self@,
    {
        let mut attributes: Vec<(String, AnyValue)> = Vec::new();
        let n = self.attributes.len();
        let mut i: usize = 0;
        while i < n
            invariant
                n == self.attributes@.len(),
                i <= n,
                attributes@.len() == i,
                forall|j: int|
                    0 <= j < i ==> #[trigger] attributes@[j].0@ == self.attributes@[j].0@
                        && attributes@[j].1@ == self.attributes@[j].1@,
            decreases n - i,
        {
            let k = self.attributes[i].0.clone();
            let v = self.attributes[i].1.clone();
            attributes.push((k, v));
            i = i + 1;
        }
        let r = LogRecord {
            timestamp: self.timestamp,
            observed_timestamp: self.observed_timestamp,
            trace_context: self.trace_context,
            severity_text: self.severity_text.clone(),
            severity_number: self.severity_number,
            body: self.body.clone(),
            attributes,
        };
        proof {
            assert(r@ =~~= self@);
        }
        r
    }
}

impl LogRecord {
    /// A record with every field unset.
    pub fn new() -> (r: LogRecord)
        ensures
            r@ == LogRecordSpec::empty(),
    {
        let r = LogRecord {
            timestamp: None,
            observed_timestamp: None,
            trace_context: None,
            severity_text: None,
            severity_number: None,
            body: None,
            attributes: Vec::new(),
        };
        proof {
            assert(r@ =~~= LogRecordSpec::empty());
        }
        r
    }

    /// Record a timestamp.
    pub fn with_timestamp(self, timestamp: u64) -> (r: Self)
        ensures
            r@ == (LogRecordSpec { timestamp: Some(timestamp), ..self@ }),
    {
        let r = LogRecord { timestamp: Some(timestamp), ..self };
        proof {
            assert(r@ =~~= (LogRecordSpec { timestamp: Some(timestamp), ..self@ }));
        }
        r
    }

    /// Record the timestamp at which the pipeline observed the record.
    pub fn with_observed_timestamp(self, timestamp: u64) -> (r: Self)
        ensures
            r@ == (LogRecordSpec { observed_timestamp: Some(timestamp), ..self@ }),
    {
        let r = LogRecord { observed_timestamp: Some(timestamp), ..self };
        proof {
            assert(r@ =~~= (LogRecordSpec { observed_timestamp: Some(timestamp), ..self@ }));
        }
        r
    }

    /// Associate the record with a span.
    pub fn with_span_context(self, span_context: TraceContext) -> (r: Self)
        ensures
            r@ == (LogRecordSpec { trace_context: Some(span_context), ..self@ }),
    {
        let r = LogRecord { trace_context: Some(span_context), ..self };
        proof {
            assert(r@ =~~= (LogRecordSpec { trace_context: Some(span_context), ..self@ }));
        }
        r
    }

    /// Record the original severity text from the source.
    pub fn with_severity_text(self, severity_text: String) -> (r: Self)
        ensures
            r@ == (LogRecordSpec { severity_text: Some(severity_text@), ..self@ }),
    {
        let ghost t = severity_text@;
        let r = LogRecord { severity_text: Some(severity_text), ..self };
        proof {
            assert(r@ =~~= (LogRecordSpec { severity_text: Some(t), ..self@ }));
        }
        r
    }

    /// Record the normalized severity value.
    pub fn with_severity_number(self, severity_number: Severity) -> (r: Self)
        ensures
            r@ == (LogRecordSpec { severity_number: Some(severity_number), ..self@ }),
    {
        let r = LogRecord { severity_number: Some(severity_number), ..self };
        proof {
            assert(r@ =~~= (LogRecordSpec { severity_number: Some(severity_number), ..self@ }));
        }
        r
    }

    /// Record the body.
    pub fn with_body(self, body: AnyValue) -> (r: Self)
        ensures
            r@ == (LogRecordSpec { body: Some(body@), ..self@ }),
    {
        let ghost b = body@;
        let r = LogRecord { body: Some(body), ..self };
        proof {
            assert(r@ =~~= (LogRecordSpec { body: Some(b), ..self@ }));
        }
        r
    }

    /// Append one attribute, keeping insertion order.
    pub fn add_attribute(&mut self, key: String, value: AnyValue)
        ensures
            final(self)@ == (LogRecordSpec {
                attributes: old(self)@.attributes.push((key@, value@)),
                ..old(self)@
            }),
    {
        let ghost k = key@;
        let ghost v = value@;
        self.attributes.push((key, value));
        proof {
            assert(final(self)@ =~~= (LogRecordSpec {
                attributes: old(self)@.attributes.push((k, v)),
                ..old(self)@
            }));
        }
    }

    /// Whether some attribute has this key and a structurally equal value.
    pub fn attributes_contains(&self, key: &str, value: &AnyValue) -> (r: bool)
        ensures
            r == exists|i: int|
                0 <= i < self@.attributes.len() && #[trigger] self@.attributes[i]
                    == (key@, value@),
    {
        let key_owned: String = key.to_owned();
        let n = self.attributes.len();
        let mut i: usize = 0;
        while i < n
            invariant
                n == self.attributes@.len(),
                n == self@.attributes.len(),
                key_owned@ == key@,
                i <= n,
                forall|j: int| 0 <= j < i ==> #[trigger] self@.attributes[j] != (key@, value@),
            decreases n - i,
        {
            let pair = &self.attributes[i];
            if pair.0 == key_owned && any_value_eq(&pair.1, value) {
                proof {
                    assert(self@.attributes[i as int] =~~= (key@, value@));
                }
                return true;
            }
            i = i + 1;
        }
        false
    }
}

/// The mathematical value of an [`InstrumentationScope`].
#[verifier::ext_equal]
pub struct ScopeSpec {
    /// Name of the producing component.
    pub name: Seq<char>,
    /// Its version, if known.
    pub version: Option<Seq<char>>,
    /// The schema URL, if any.
    pub schema_url: Option<Seq<char>>,
}

/// Identifies the producer component of a record; immutable after
/// creation and shared read-only into every batch entry.
#[derive(Debug)]
pub struct InstrumentationScope {
    /// Name of the producing component.
    pub name: String,
    /// Its version, if known.
    pub version: Option<String>,
    /// The schema URL its records follow, if any.
    pub schema_url: Option<String>,
}

impl View for InstrumentationScope {
    type V = ScopeSpec;

    open spec fn view(&self) -> ScopeSpec {
        ScopeSpec {
            name: self.name@,
            version: match self.version {
                Some(v) => Some(v@),
                None => None,
            },
            schema_url: match self.schema_url {
                Some(u) => Some(u@),
                None => None,
            },
        }
    }
}

impl Clone for InstrumentationScope {
    fn clone(&self) -> (r: Self)
        ensures
            r@ == self@,
    {
        let r = InstrumentationScope {
            name: self.name.clone(),
            version: self.version.clone(),
            schema_url: self.schema_url.clone(),
        };
        proof {
            assert(r@ =~~= self@);
        }
        r
    }
}

impl InstrumentationScope {
    /// A scope with the given name and nothing else.
    pub fn new(name: String) -> (r: InstrumentationScope)
        ensures
            r@ == (ScopeSpec { name: name@, version: None, schema_url: None }),
    {
        let ghost n = name@;
        let r = InstrumentationScope { name, version: None, schema_url: None };
        proof {
            assert(r@ =~~= (ScopeSpec { name: n, version: None, schema_url: None }));
        }
        r
    }
}

/// The mathematical value of a [`LogData`].
#[verifier::ext_equal]
pub struct LogDataSpec {
    /// The record itself.
    pub record: LogRecordSpec,
    /// The scope that produced it.
    pub instrumentation: ScopeSpec,
}

/// A record paired with the scope that produced it: what the pipeline
/// buffers and what exporters receive.
#[derive(Debug)]
pub struct LogData {
    /// The record itself.
    pub record: LogRecord,
    /// The scope that produced it.
    pub instrumentation: InstrumentationScope,
}

impl View for LogData {
    type V = LogDataSpec;

    open spec fn view(&self) -> LogDataSpec {
        LogDataSpec { record: self.record@, instrumentation: self.instrumentation@ }
    }
}

impl Clone for LogData {
    fn clone(&self) -> (r: Self)
        ensures
            r@ == self@,
    {
        let r = LogData {
            record: self.record.clone(),
            instrumentation: self.instrumentation.clone(),
        };
        proof {
            assert(r@ =~~= self@);
        }
        r
    }
}

impl LogData {
    /// Pair a record with the scope that produced it.
    pub fn new(record: LogRecord, instrumentation: InstrumentationScope) -> (r: LogData)
        ensures
            r@.record == record@,
            r@.instrumentation == instrumentation@,
    {
        LogData { record, instrumentation }
    }
}

/// The mathematical value of a [`Resource`].
#[verifier::ext_equal]
pub struct ResourceSpec {
    /// The attributes, in insertion order.
    pub attributes: Seq<(Seq<char>, Seq<char>)>,
    /// The schema URL, if any.
    pub schema_url: Option<Seq<char>>,
}

/// A static, process-describing key-value set, broadcast to every
/// processor and exporter; each propagation delivers an owned snapshot,
/// so no shared mutable resource object exists.
#[derive(Debug)]
pub struct Resource {
    /// The attributes, in insertion order.
    pub attributes: Vec<(String, String)>,
    /// The schema URL the attributes follow, if any.
    pub schema_url: Option<String>,
}

impl View for Resource {
    type V = ResourceSpec;

    open spec fn view(&self) -> ResourceSpec {
        ResourceSpec {
            attributes: Seq::new(
                self.attributes@.len(),
                |i: int| (self.attributes@[i].0@, self.attributes@[i].1@),
            ),
            schema_url: match self.schema_url {
                Some(u) => Some(u@),
                None => None,
            },
        }
    }
}

impl Clone for Resource {
    fn clone(&self) -> (r: Self)
        ensures
            r@ == self@,
    {
        let mut attributes: Vec<(String, String)> = Vec::new();
        let n = self.attributes.len();
        let mut i: usize = 0;
        while i < n
            invariant
                n == self.attributes@.len(),
                i <= n,
                attributes@.len() == i,
                forall|j: int|
                    0 <= j < i ==> #[trigger] attributes@[j].0@ == self.attributes@[j].0@
                        && attributes@[j].1@ == self.attributes@[j].1@,
            decreases n - i,
        {
            let k = self.attributes[i].0.clone();
            let v = self.attributes[i].1.clone();
            attributes.push((k, v));
            i = i + 1;
        }
        let r = Resource { attributes, schema_url: self.schema_url.clone() };
        proof {
            assert(r@ =~~= self@);
        }
        r
    }
}

impl Resource {
    /// A resource holding the given attributes.
    pub fn new(attributes: Vec<(String, String)>) -> (r: Resource)
        ensures
            r@.attributes.len() == attributes@.len(),
            forall|i: int|
                0 <= i < attributes@.len() ==> #[trigger] r@.attributes[i] == (
                    attributes@[i].0@,
                    attributes@[i].1@,
                ),
            r@.schema_url is None,
    {
        Resource { attributes, schema_url: None }
    }

    /// A resource with no attributes.
    pub fn empty() -> (r: Resource)
        ensures
            r@ == (ResourceSpec { attributes: Seq::empty(), schema_url: None }),
    {
        let r = Resource { attributes: Vec::new(), schema_url: None };
        proof {
            assert(r@ =~~= (ResourceSpec { attributes: Seq::empty(), schema_url: None }));
        }
        r
    }

    /// The number of attributes.
    pub fn len(&self) -> (n: usize)
        ensures
            n == self@.attributes.len(),
    {
        self.attributes.len()
    }
}

} // verus!
