//! Handing a reading to the remote ingestion service: the sample that goes
//! over the wire, the request that carries it, and what counts as a failed
//! upload. Sending the request is the caller's.

use crate::reading::lemma_whole_degrees_bounds;
use crate::reading::magnitude;
use crate::reading::whole_degrees_of;
use crate::reading::TemperatureReading;
use crate::text::decimal;
use crate::text::lemma_decimal_is_ascii;
use crate::text::lemma_signed_decimal_determines;
use crate::text::lemma_signed_decimal_length;
use crate::text::push_decimal;
use crate::text::push_signed_decimal;
use crate::text::signed_decimal;
use vstd::prelude::*;

verus! {

/// What is sent for one reading: the temperature in whole degrees Celsius.
/// The fixed-point scale of the stored reading does not cross this boundary.
#[derive(Clone, Copy, Debug, PartialEq, Eq, Structural)]
pub struct TelemetrySample {
    pub temp: i32,
}

/// Why an upload failed. None of these says anything about the link.
#[derive(Clone, Copy, Debug, PartialEq, Eq, Structural)]
pub enum TransportError {
    /// No answer in time.
    Timeout,
    /// The service did not take the connection.
    Refused,
    /// The service answered with this status, which is not a success.
    Status(u16),
}

/// How one request ended, as the caller saw it.
#[derive(Clone, Copy, Debug, PartialEq, Eq, Structural)]
pub enum TransportOutcome {
    /// The service answered with this status.
    Responded(u16),
    /// No answer in time.
    TimedOut,
    /// The service did not take the connection.
    Refused,
}

/// One request to the ingestion service.
#[derive(Debug, PartialEq, Eq)]
pub struct UploadRequest {
    /// Where the request goes.
    pub url: String,
    /// The value of the content-type header.
    pub content_type: String,
    /// The value of the content-length header: the body's length in bytes.
    pub content_length: String,
    /// The body.
    pub body: String,
}

/// The sample of a stored reading: its whole degrees, hundredths cut off
/// towards zero.
pub open spec fn sample_of(reading: TemperatureReading) -> TelemetrySample {
    TelemetrySample { temp: whole_degrees_of(reading.centi as int) as i32 }
}

/// The body that carries a temperature of `temp` whole degrees.
pub open spec fn payload_text(temp: int) -> Seq<char> {
    seq!['{', '"', 't', 'e', 'm', 'p', '"', ':', ' '] + signed_decimal(temp) + seq!['}']
}

/// The path of the operation that takes a sample.
pub open spec fn create_path() -> Seq<char> {
    seq!['/', 'c', 'r', 'e', 'a', 't', 'e']
}

/// The content type of a sample's body.
pub open spec fn json_content_type() -> Seq<char> {
    seq!['a', 'p', 'p', 'l', 'i', 'c', 'a', 't', 'i', 'o', 'n', '/', 'j', 's', 'o', 'n']
}

/// Whether `request` is the request that carries `sample` to the service at
/// `endpoint`.
pub open spec fn request_carries(
    request: UploadRequest,
    endpoint: Seq<char>,
    sample: TelemetrySample,
) -> bool {
    &&& request.url@ == endpoint + create_path()
    &&& request.content_type@ == json_content_type()
    &&& request.body@ == payload_text(sample.temp as int)
    &&& request.content_length@ == decimal(request.body@.len())
    &&& vstd::utf8::encode_utf8(request.body@).len() == request.body@.len()
}

/// What [`upload_result`] makes of an outcome: a success is an answer with a
/// status from 200 to 299, and nothing else.
pub open spec fn upload_result_of(outcome: TransportOutcome) -> Result<(), TransportError> {
    match outcome {
        TransportOutcome::Responded(status) => if 200 <= status <= 299 {
            Ok(())
        } else {
            Err(TransportError::Status(status))
        },
        TransportOutcome::TimedOut => Err(TransportError::Timeout),
        TransportOutcome::Refused => Err(TransportError::Refused),
    }
}

impl TelemetrySample {
    /// The sample of a stored reading: its whole degrees.
    pub fn from_reading(reading: TemperatureReading) -> (sample: Self)
        ensures
            sample == sample_of(reading),
            sample.temp == whole_degrees_of(reading.centi as int),
    {
        TelemetrySample { temp: reading.whole_degrees() }
    }

    /// The body that carries this sample.
    pub fn payload(&self) -> (body: String)
        ensures
            body@ == payload_text(self.temp as int),
    {
        proof {
            reveal_strlit("{\"temp\": ");
            reveal_strlit("}");
        }
        let mut body = String::from_str("{\"temp\": ");
        assert(body@ =~= seq!['{', '"', 't', 'e', 'm', 'p', '"', ':', ' ']);
        push_signed_decimal(&mut body, self.temp);
        body.append("}");
        assert("}"@ =~= seq!['}']);
        body
    }
}

/// The body of a sample is plain ASCII: its length in bytes is its length in
/// characters.
pub proof fn lemma_payload_is_ascii(temp: int)
    ensures
        vstd::utf8::is_ascii_chars(payload_text(temp)),
{
    if temp < 0 {
        lemma_decimal_is_ascii((-temp) as nat);
    } else {
        lemma_decimal_is_ascii(temp as nat);
    }
}

/// The scale of the stored reading does not cross the boundary: what is sent
/// is the reading's whole degrees, less than one degree away from the reading
/// and never its count of hundredths.
pub proof fn lemma_sample_is_unscaled(reading: TemperatureReading)
    ensures
        sample_of(reading).temp == whole_degrees_of(reading.centi as int),
        magnitude(reading.centi - 100 * sample_of(reading).temp) < 100,
        payload_text(sample_of(reading).temp as int) == payload_text(
            whole_degrees_of(reading.centi as int),
        ),
{
    lemma_whole_degrees_bounds(reading.centi as int);
}

/// A body carries one temperature only: from the body, the service reads back
/// the temperature that was put into it.
pub proof fn lemma_payload_determines_temperature(a: int, b: int)
    requires
        payload_text(a) == payload_text(b),
    ensures
        a == b,
{
    let pa = payload_text(a);
    let pb = payload_text(b);
    assert(signed_decimal(a) =~= pa.subrange(9, pa.len() - 1));
    assert(signed_decimal(b) =~= pb.subrange(9, pb.len() - 1));
    lemma_signed_decimal_determines(a, b);
}

/// The request that carries `sample` to the service at `endpoint`: the create
/// operation under that endpoint, a JSON body, and its length stated.
pub fn upload_request(endpoint: &str, sample: TelemetrySample) -> (request: UploadRequest)
    ensures
        request_carries(request, endpoint@, sample),
{
    proof {
        reveal_strlit("/create");
        reveal_strlit("application/json");
    }
    let mut url = String::from_str(endpoint);
    url.append("/create");
    assert("/create"@ =~= create_path());
    let content_type = String::from_str("application/json");
    assert(content_type@ =~= json_content_type());
    let body = sample.payload();
    let length: usize = body.as_str().len();
    proof {
        lemma_payload_is_ascii(sample.temp as int);
        vstd::utf8::is_ascii_chars_encode_utf8(body@);
    }
    proof {
        lemma_signed_decimal_length(sample.temp as int);
    }
    let mut content_length = String::new();
    push_decimal(&mut content_length, length as u32);
    assert(Seq::<char>::empty() + decimal(length as nat) =~= decimal(length as nat));
    UploadRequest { url, content_type, content_length, body }
}

/// Whether an upload succeeded. A failure is the caller's to log; the next
/// cycle is the retry.
pub fn upload_result(outcome: TransportOutcome) -> (r: Result<(), TransportError>)
    ensures
        r == upload_result_of(outcome),
{
    match outcome {
        TransportOutcome::Responded(status) => {
            if 200 <= status && status <= 299 {
                Ok(())
            } else {
                Err(TransportError::Status(status))
            }
        },
        TransportOutcome::TimedOut => Err(TransportError::Timeout),
        TransportOutcome::Refused => Err(TransportError::Refused),
    }
}

} // verus!
