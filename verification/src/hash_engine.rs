//! Configuration of the hash engine and the decision functions of its
//! lifecycle: what the outcome of each foreign call means, and how raw
//! result buffers are read back as values.

use vstd::prelude::*;

use crate::fiftyone_degrees::{Exception, EXIT_SUCCESS};

verus! {

/// Performance presets of the hash engine, trading memory footprint for
/// lookup speed.
#[derive(Clone, Copy, Debug, PartialEq, Eq, Structural)]
pub enum HashConfig {
    InMemory,
    HighPerformance,
    LowMemory,
    SingleLoaded,
}

/// A builder to configure the hash engine.  A path to the hash dataset file
/// is mandatory; the performance preset can be set with [`Self::hash_config`]
/// and defaults to `LowMemory`; the property filter can be set with
/// [`Self::set_properties`] and defaults to all properties.
pub struct HashEngineBuilder {
    /// The performance preset the engine will be initialized with.
    pub hash_config: HashConfig,
    /// The path of the precompiled hash dataset file.
    pub hash_file: String,
    /// The names of the properties the engine is asked to compute; empty
    /// means all properties available.
    pub properties: Vec<String>,
}

/// The property filter as it is handed to the foreign initializer: the
/// names joined with single commas, in order, and the empty sequence for an
/// empty filter.
pub open spec fn comma_joined(props: Seq<Seq<char>>) -> Seq<char>
    decreases props.len(),
{
    if props.len() == 0 {
        Seq::empty()
    } else if props.len() == 1 {
        props[0]
    } else {
        comma_joined(props.drop_last()) + seq![','] + props[props.len() - 1]
    }
}

impl HashEngineBuilder {
    /// Creates a new builder for the dataset at `hash_file`, with the
    /// `LowMemory` preset and no property filter.
    pub fn new(hash_file: &str) -> (r: Self)
        ensures
            r.hash_config == HashConfig::LowMemory,
            r.hash_file@ == hash_file@,
            r.properties@ == Seq::<String>::empty(),
    {
        HashEngineBuilder {
            hash_config: HashConfig::LowMemory,
            hash_file: hash_file.to_owned(),
            properties: Vec::new(),
        }
    }

    /// Sets the performance preset of the hash engine.
    pub fn hash_config(self, config: HashConfig) -> (r: Self)
        ensures
            r.hash_config == config,
            r.hash_file == self.hash_file,
            r.properties == self.properties,
    {
        HashEngineBuilder { hash_config: config, ..self }
    }

    /// Sets the properties the engine computes for each result.
    pub fn set_properties(self, properties: &[&str]) -> (r: Self)
        ensures
            r.hash_config == self.hash_config,
            r.hash_file == self.hash_file,
            r.properties@.len() == properties@.len(),
            forall|i: int| 0 <= i < properties@.len() ==> r.properties@[i]@ == properties@[i]@,
    {
        let mut props: Vec<String> = Vec::new();
        let mut i: usize = 0;
        while i < properties.len()
            invariant
                i <= properties@.len(),
                props@.len() == i,
                forall|j: int| 0 <= j < i ==> props@[j]@ == properties@[j]@,
            decreases properties@.len() - i,
        {
            props.push(properties[i].to_owned());
            i = i + 1;
        }
        HashEngineBuilder { properties: props, ..self }
    }

    /// The comma-joined property filter handed to the foreign initializer;
    /// empty when all properties are requested.
    pub fn joined_properties(&self) -> (r: String)
        ensures
            r@ == comma_joined(self.properties.deep_view()),
    {
        let mut buf = String::new();
        let mut i: usize = 0;
        while i < self.properties.len()
            invariant
                i <= self.properties@.len(),
                buf@ == comma_joined(self.properties.deep_view().take(i as int)),
            decreases self.properties@.len() - i,
        {
            if i > 0 {
                buf.append(",");
            }
            buf.append(self.properties[i].as_str());
            proof {
                reveal_strlit(",");
                let all = self.properties.deep_view();
                assert(all.take(i + 1).drop_last() =~= all.take(i as int));
                assert(all.take(i + 1)[i as int] == self.properties@[i as int]@);
                if i == 0 {
                    assert(buf@ =~= all.take(1)[0]);
                } else {
                    let joined = comma_joined(all.take(i as int)) + seq![','] + all.take(i + 1)[i as int];
                    assert(buf@ =~= joined);
                }
            }
            i = i + 1;
        }
        proof {
            assert(self.properties.deep_view().take(self.properties@.len() as int)
                =~= self.properties.deep_view());
        }
        buf
    }
}

/// Decides the outcome of the foreign initializer call.  The exception is
/// inspected first; only if it never fired does the returned status count,
/// and only when both pass has an engine been built.
pub fn interpret_init_outcome(exception: Exception, status: u32) -> (r: Result<
    (),
    HashManagerError,
>)
    ensures
        r is Ok <==> (exception.is_ok() && status == EXIT_SUCCESS),
        !exception.is_ok() ==> (r matches Err(e) && e.kind matches HashManagerErrorKind::Init(ex)
            && ex == exception),
        (exception.is_ok() && status != EXIT_SUCCESS) ==> (r matches Err(e)
            && e.kind matches HashManagerErrorKind::WithoutException(s) && s.status == status),
{
    if !exception.is_ok() {
        return Err(HashManagerError { kind: HashManagerErrorKind::Init(exception) });
    }
    if status != EXIT_SUCCESS {
        return Err(
            HashManagerError { kind: HashManagerErrorKind::WithoutException(ErrStatus { status }) },
        );
    }
    Ok(())
}

/// An error surfaced while building the engine or processing evidence.
#[derive(Debug)]
pub struct HashManagerError {
    pub kind: HashManagerErrorKind,
}

/// What went wrong during a foreign call, with the exception snapshot where
/// the collaborator produced one.
#[derive(Debug)]
pub enum HashManagerErrorKind {
    /// The foreign result buffer could not be allocated; the allocating call
    /// has no exception output, so none accompanies this case.
    AllocatingResult,
    /// The foreign initializer fired an exception.
    Init(Exception),
    /// The foreign populate call fired an exception.
    Process(Exception),
    /// The foreign initializer reported a failing status without firing an
    /// exception.
    WithoutException(ErrStatus),
}

/// A failing status code returned directly by the foreign initializer.
#[derive(Clone, Copy, Debug, PartialEq, Eq, Structural)]
pub struct ErrStatus {
    pub status: u32,
}

/// Decides the result-buffer allocation step of a query.  The allocating
/// call has no exception output, so a null allocation is fatal to the call
/// on its own; any other allocation is accepted.
pub fn interpret_result_allocation(result_is_null: bool) -> (r: Result<(), HashManagerError>)
    ensures
        r is Ok <==> !result_is_null,
        result_is_null ==> (r matches Err(e) && e.kind is AllocatingResult),
{
    if result_is_null {
        return Err(HashManagerError { kind: HashManagerErrorKind::AllocatingResult });
    }
    Ok(())
}

/// Decides the outcome of the foreign populate call of a query: a fired
/// exception is fatal to that call alone and carries the snapshot; the
/// engine stays usable.
pub fn interpret_process_outcome(exception: Exception) -> (r: Result<(), HashManagerError>)
    ensures
        r is Ok <==> exception.is_ok(),
        !exception.is_ok() ==> (r matches Err(e) && e.kind
            matches HashManagerErrorKind::Process(ex) && ex == exception),
{
    if !exception.is_ok() {
        return Err(HashManagerError { kind: HashManagerErrorKind::Process(exception) });
    }
    Ok(())
}

/// The bytes strictly before the first NUL, or nothing when the sequence
/// holds no NUL terminator at all.
pub open spec fn bytes_before_nul(s: Seq<u8>) -> Option<Seq<u8>>
    decreases s.len(),
{
    if s.len() == 0 {
        None
    } else if s[0] == 0 {
        Some(Seq::empty())
    } else {
        match bytes_before_nul(s.drop_first()) {
            None => None,
            Some(rest) => Some(seq![s[0]] + rest),
        }
    }
}

proof fn lemma_bytes_before_nul_found(s: Seq<u8>, i: int)
    requires
        0 <= i < s.len(),
        s[i] == 0,
        forall|j: int| 0 <= j < i ==> s[j] != 0,
    ensures
        bytes_before_nul(s) == Some(s.take(i)),
    decreases i,
{
    if i == 0 {
        assert(s.take(0) =~= Seq::<u8>::empty());
    } else {
        lemma_bytes_before_nul_found(s.drop_first(), i - 1);
        assert(seq![s[0]] + s.drop_first().take(i - 1) =~= s.take(i));
    }
}

proof fn lemma_bytes_before_nul_absent(s: Seq<u8>)
    requires
        forall|j: int| 0 <= j < s.len() ==> s[j] != 0,
    ensures
        bytes_before_nul(s) is None,
    decreases s.len(),
{
    if s.len() > 0 {
        lemma_bytes_before_nul_absent(s.drop_first());
    }
}

/// Relies on std's `String::from_utf8`: it returns `Ok` exactly when the
/// bytes are a valid UTF-8 encoding, and then decodes them; `vstd::utf8`
/// states that encoding.
#[verifier::external_body]
fn string_from_utf8(bytes: Vec<u8>) -> (r: Option<String>)
    ensures
        r is Some <==> vstd::utf8::valid_utf8(bytes@),
        r matches Some(s) ==> s@ == vstd::utf8::decode_utf8(bytes@),
{
    String::from_utf8(bytes).ok()
}

/// The device identifier a result holds, given the exception snapshot of the
/// foreign lookup and the buffer it wrote: the UTF-8 text before the NUL
/// terminator, and nothing when the exception fired, no terminator was
/// written, or the bytes are not UTF-8.
pub open spec fn spec_device_id(exception: Exception, buf: Seq<u8>) -> Option<Seq<char>> {
    if !exception.spec_is_ok() {
        None
    } else {
        match bytes_before_nul(buf) {
            None => None,
            Some(b) => if vstd::utf8::valid_utf8(b) {
                Some(vstd::utf8::decode_utf8(b))
            } else {
                None
            },
        }
    }
}

/// Reads the device identifier back from the buffer a foreign lookup filled,
/// after the exception that accompanied the call.  Every soft failure — a
/// fired exception, a buffer without NUL terminator, non-UTF-8 content —
/// yields no value rather than an error.
pub fn device_id_from_buffer(exception: &Exception, buf: &[u8]) -> (r: Option<String>)
    ensures
        r is Some <==> spec_device_id(*exception, buf@) is Some,
        r matches Some(id) ==> Some(id@) == spec_device_id(*exception, buf@),
{
    if !exception.is_ok() {
        return None;
    }
    let n = buf.len();
    let mut out: Vec<u8> = Vec::new();
    let mut i: usize = 0;
    while i < n
        invariant
            exception.spec_is_ok(),
            n == buf@.len(),
            i <= n,
            forall|j: int| 0 <= j < i ==> buf@[j] != 0,
            out@ == buf@.take(i as int),
        decreases n - i,
    {
        if buf[i] == 0 {
            proof {
                lemma_bytes_before_nul_found(buf@, i as int);
            }
            return string_from_utf8(out);
        }
        out.push(buf[i]);
        i = i + 1;
    }
    proof {
        lemma_bytes_before_nul_absent(buf@);
    }
    None
}

/// The value of a property lookup, given the parts the foreign call
/// produced: the exception snapshot, whether the value collection came back
/// null, how many values the result carries for the property, and the raw
/// bytes of the first value.  A fired exception, a null collection, zero
/// values — the engine legitimately has no opinion — or non-UTF-8 bytes all
/// mean "no value".
pub open spec fn spec_property_value(
    exception: Exception,
    collection_is_null: bool,
    value_count: u32,
    value_bytes: Seq<u8>,
) -> Option<Seq<char>> {
    if !exception.spec_is_ok() || collection_is_null || value_count == 0 {
        None
    } else if vstd::utf8::valid_utf8(value_bytes) {
        Some(vstd::utf8::decode_utf8(value_bytes))
    } else {
        None
    }
}

/// Decides a property lookup from the parts the foreign call produced; the
/// exception is inspected before any other output is interpreted.  Soft
/// failures yield no value, never an error.
pub fn property_value_from_parts(
    exception: &Exception,
    collection_is_null: bool,
    value_count: u32,
    value_bytes: &[u8],
) -> (r: Option<String>)
    ensures
        r is Some <==> spec_property_value(
            *exception,
            collection_is_null,
            value_count,
            value_bytes@,
        ) is Some,
        r matches Some(v) ==> Some(v@) == spec_property_value(
            *exception,
            collection_is_null,
            value_count,
            value_bytes@,
        ),
{
    if !exception.is_ok() {
        return None;
    }
    if collection_is_null {
        return None;
    }
    if value_count == 0 {
        return None;
    }
    let bytes = vstd::slice::slice_to_vec(value_bytes);
    string_from_utf8(bytes)
}

} // verus!
