//! The health of the services the cognition server depends on: where each
//! is probed, and what a probe's outcome says of it.
use vstd::prelude::*;
use crate::text::{append_str, from_chars, replace, replace_all};

verus! {

/// Why a service is unhealthy.
#[derive(Debug, Clone, PartialEq, Eq)]
pub enum HealthCheckError {
    ReqwestError(String),
    ParseError(String),
    OllamaError(String),
}

impl HealthCheckError {
    /// The error's message.
    pub fn to_string(&self) -> (s: String)
        ensures
            match self {
                HealthCheckError::ReqwestError(m) => s@ == "Reqwest error: "@ + m@,
                HealthCheckError::ParseError(m) => s@ == "ParseError: "@ + m@,
                HealthCheckError::OllamaError(m) => s@ == "OllamaError: "@ + m@,
            },
    {
        let mut out: Vec<char> = Vec::new();
        match self {
            HealthCheckError::ReqwestError(m) => {
                append_str(&mut out, "Reqwest error: ");
                append_str(&mut out, m.as_str());
            },
            HealthCheckError::ParseError(m) => {
                append_str(&mut out, "ParseError: ");
                append_str(&mut out, m.as_str());
            },
            HealthCheckError::OllamaError(m) => {
                append_str(&mut out, "OllamaError: ");
                append_str(&mut out, m.as_str());
            },
        }
        from_chars(&out)
    }
}

/// The services whose health is checked.
#[derive(Debug, Clone, Copy, PartialEq, Eq, Structural)]
pub enum Service {
    SurrealDB,
    OllamaChat,
    OllamaThink,
    PdfAnalyzer,
    Markitdown,
    Minio,
}

/// Whether a service is healthy, and why not.
#[derive(Debug, Clone, PartialEq, Eq)]
pub struct Status {
    pub is_healthy: bool,
    pub error: Option<HealthCheckError>,
}

impl Status {
    /// A healthy service.
    pub fn healthy() -> (s: Status)
        ensures
            s.is_healthy,
            s.error is None,
    {
        Status { is_healthy: true, error: None }
    }

    /// An unhealthy service, and why.
    pub fn unhealthy(error: HealthCheckError) -> (s: Status)
        ensures
            !s.is_healthy,
            s.error == Some(error),
    {
        Status { is_healthy: false, error: Some(error) }
    }
}

/// A model an Ollama server is running, and the video memory it uses.
#[derive(Debug, Clone, PartialEq, Eq)]
pub struct OllamaRunningModel {
    pub size_vram: u64,
    pub model: String,
}

/// What an Ollama server reports of the models it runs.
#[derive(Debug, Clone, PartialEq, Eq)]
pub struct OllamaHealth {
    pub models: Vec<OllamaRunningModel>,
}

/// What the PDF analyzer reports.
#[derive(Debug, Clone, PartialEq, Eq)]
pub struct PdfAnalyzerHealth {
    pub info: String,
}

/// The health of one service.
#[derive(Debug, Clone, PartialEq, Eq)]
pub enum Responses {
    SurrealDb { status: Status },
    Ollama { status: Status, health: Option<OllamaHealth> },
    PdfAnalyzer { status: Status, health: Option<PdfAnalyzerHealth> },
    Markitdown { status: Status },
    Minio { status: Status },
}

/// What became of an HTTP probe: the client could not be built, the request
/// failed, or the service answered.
#[derive(Debug, Clone, PartialEq, Eq)]
pub enum ProbeOutcome {
    ClientError(String),
    RequestError(String),
    Reached,
}

/// What became of a probe of an Ollama server.
#[derive(Debug, Clone, PartialEq, Eq)]
pub enum OllamaOutcome {
    ClientError(String),
    RequestError(String),
    /// The answer did not parse as a list of running models.
    ParseError(String),
    Health(OllamaHealth),
}

/// What became of a probe of the PDF analyzer.
#[derive(Debug, Clone, PartialEq, Eq)]
pub enum PdfOutcome {
    ClientError(String),
    RequestError(String),
    /// The answer's body could not be read.
    BodyError(String),
    Info(String),
}

/// What `url::Url::parse` of `base` followed by `Url::join` of `rel` gives:
/// the joined URL as text, or the parse error's message.
pub uninterp spec fn url_join(base: Seq<char>, rel: Seq<char>) -> Result<Seq<char>, Seq<char>>;

/// Parses `base` with `url::Url::parse` and joins `rel` to it with
/// `Url::join`; named by `url_join`.
#[verifier::external_body]
fn join_url(base: &str, rel: &str) -> (r: Result<String, String>)
    ensures
        match (r, url_join(base@, rel@)) {
            (Ok(u), Ok(u2)) => u@ == u2,
            (Err(e), Err(e2)) => e@ == e2,
            _ => false,
        },
{
    match url::Url::parse(base).and_then(|u| u.join(rel)) {
        Ok(u) => Ok(u.to_string()),
        Err(e) => Err(e.to_string()),
    }
}

/// The path a service answers health probes at, relative to its endpoint;
/// `None` for the PDF analyzer, probed at its endpoint itself, and for the
/// database, whose endpoint is rewritten first.
pub open spec fn probe_path(service: Service) -> Option<Seq<char>> {
    match service {
        Service::Markitdown => Some("health"@),
        Service::OllamaChat => Some("api/ps"@),
        Service::OllamaThink => Some("api/ps"@),
        Service::Minio => Some("minio/health/live"@),
        _ => None,
    }
}

/// The URL a service is probed at: its endpoint joined with its probe
/// path; the endpoint itself for the PDF analyzer; for the database see
/// `surrealdb_health_url`.
pub fn probe_url(service: Service, endpoint: &str) -> (r: Result<String, String>)
    requires
        service != Service::SurrealDB,
    ensures
        match probe_path(service) {
            Some(p) => match (r, url_join(endpoint@, p)) {
                (Ok(u), Ok(u2)) => u@ == u2,
                (Err(e), Err(e2)) => e@ == e2,
                _ => false,
            },
            None => r matches Ok(u) && u@ == endpoint@,
        },
{
    match service {
        Service::Markitdown => join_url(endpoint, "health"),
        Service::OllamaChat => join_url(endpoint, "api/ps"),
        Service::OllamaThink => join_url(endpoint, "api/ps"),
        Service::Minio => join_url(endpoint, "minio/health/live"),
        _ => Ok(endpoint.to_owned()),
    }
}

/// The URL the database is probed at: its endpoint with `ws` replaced by
/// `http`, joined with `health`; an unparsable endpoint is a parse error.
pub fn surrealdb_health_url(endpoint: &str) -> (r: Result<String, HealthCheckError>)
    ensures
        match (r, url_join(replace_all(endpoint@, "ws"@, "http"@), "health"@)) {
            (Ok(u), Ok(u2)) => u@ == u2,
            (Err(HealthCheckError::ParseError(e)), Err(e2)) => e@ == e2,
            _ => false,
        },
{
    proof {
        reveal_strlit("ws");
    }
    let http = replace(endpoint, "ws", "http");
    match join_url(http.as_str(), "health") {
        Ok(u) => Ok(u),
        Err(e) => Err(HealthCheckError::ParseError(e)),
    }
}

/// The status a plain probe gives: healthy when the service answered.
pub open spec fn probe_status(outcome: ProbeOutcome) -> Status {
    match outcome {
        ProbeOutcome::ClientError(e) => Status { is_healthy: false, error: Some(HealthCheckError::ReqwestError(e)) },
        ProbeOutcome::RequestError(e) => Status { is_healthy: false, error: Some(HealthCheckError::ReqwestError(e)) },
        ProbeOutcome::Reached => Status { is_healthy: true, error: None },
    }
}

/// A probed service is reported healthy exactly when it was reached; an
/// unhealthy report always says why, and a probe that could not be built
/// or sent reports that request error.
pub proof fn lemma_probe_health(outcome: ProbeOutcome)
    ensures
        probe_status(outcome).is_healthy <==> outcome is Reached,
        probe_status(outcome).is_healthy <==> probe_status(outcome).error is None,
        outcome matches ProbeOutcome::RequestError(e)
            ==> probe_status(outcome).error == Some(HealthCheckError::ReqwestError(e)),
        outcome matches ProbeOutcome::ClientError(e)
            ==> probe_status(outcome).error == Some(HealthCheckError::ReqwestError(e)),
{
}

fn status_of(outcome: ProbeOutcome) -> (s: Status)
    ensures
        s == probe_status(outcome),
{
    match outcome {
        ProbeOutcome::ClientError(e) => Status::unhealthy(HealthCheckError::ReqwestError(e)),
        ProbeOutcome::RequestError(e) => Status::unhealthy(HealthCheckError::ReqwestError(e)),
        ProbeOutcome::Reached => Status::healthy(),
    }
}

/// The health of the database.
pub fn surrealdb_response(outcome: ProbeOutcome) -> (r: Responses)
    ensures
        r == (Responses::SurrealDb { status: probe_status(outcome) }),
{
    Responses::SurrealDb { status: status_of(outcome) }
}

/// The health of the Markdown converter.
pub fn markitdown_response(outcome: ProbeOutcome) -> (r: Responses)
    ensures
        r == (Responses::Markitdown { status: probe_status(outcome) }),
{
    Responses::Markitdown { status: status_of(outcome) }
}

/// The health of the object store; a client that could not be built is
/// reported under the Ollama variant, without health details.
pub fn minio_response(outcome: ProbeOutcome) -> (r: Responses)
    ensures
        match outcome {
            ProbeOutcome::ClientError(e) => r == (Responses::Ollama {
                status: Status { is_healthy: false, error: Some(HealthCheckError::ReqwestError(e)) },
                health: None,
            }),
            _ => r == (Responses::Minio { status: probe_status(outcome) }),
        },
{
    match outcome {
        ProbeOutcome::ClientError(e) => Responses::Ollama {
            status: Status::unhealthy(HealthCheckError::ReqwestError(e)),
            health: None,
        },
        _ => Responses::Minio { status: status_of(outcome) },
    }
}

/// Whether a model runs without video memory, that is on the CPU.
pub open spec fn on_cpu(models: Seq<OllamaRunningModel>) -> bool {
    exists|i: int| 0 <= i < models.len() && (#[trigger] models[i]).size_vram == 0
}

/// The health of an Ollama server: unhealthy when it could not be reached
/// or its answer did not parse, and when a model runs on the CPU.
pub fn ollama_response(outcome: OllamaOutcome) -> (r: Responses)
    ensures
        match outcome {
            OllamaOutcome::ClientError(e) => r == (Responses::Ollama {
                status: Status { is_healthy: false, error: Some(HealthCheckError::ReqwestError(e)) },
                health: None,
            }),
            OllamaOutcome::RequestError(e) => r == (Responses::Ollama {
                status: Status { is_healthy: false, error: Some(HealthCheckError::ReqwestError(e)) },
                health: None,
            }),
            OllamaOutcome::ParseError(e) => r == (Responses::Ollama {
                status: Status { is_healthy: false, error: Some(HealthCheckError::ParseError(e)) },
                health: None,
            }),
            OllamaOutcome::Health(h) => if on_cpu(h.models@) {
                r matches Responses::Ollama { status, health: None } && !status.is_healthy
                    && (status.error matches Some(HealthCheckError::OllamaError(m))
                        && m@ == "Ollama is running on CPU"@)
            } else {
                r == (Responses::Ollama { status: Status { is_healthy: true, error: None }, health: Some(h) })
            },
        },
{
    match outcome {
        OllamaOutcome::ClientError(e) => Responses::Ollama {
            status: Status::unhealthy(HealthCheckError::ReqwestError(e)),
            health: None,
        },
        OllamaOutcome::RequestError(e) => Responses::Ollama {
            status: Status::unhealthy(HealthCheckError::ReqwestError(e)),
            health: None,
        },
        OllamaOutcome::ParseError(e) => Responses::Ollama {
            status: Status::unhealthy(HealthCheckError::ParseError(e)),
            health: None,
        },
        OllamaOutcome::Health(h) => {
            let mut cpu = false;
            let mut i: usize = 0;
            while i < h.models.len()
                invariant
                    i <= h.models.len(),
                    cpu <==> exists|j: int| 0 <= j < i && (#[trigger] h.models@[j]).size_vram == 0,
                decreases h.models.len() - i,
            {
                if h.models[i].size_vram == 0 {
                    cpu = true;
                }
                i = i + 1;
            }
            if cpu {
                Responses::Ollama {
                    status: Status::unhealthy(HealthCheckError::OllamaError("Ollama is running on CPU".to_owned())),
                    health: None,
                }
            } else {
                Responses::Ollama { status: Status::healthy(), health: Some(h) }
            }
        },
    }
}

/// The health of the PDF analyzer, with what it reports when reached.
pub fn pdf_analyzer_response(outcome: PdfOutcome) -> (r: Responses)
    ensures
        match outcome {
            PdfOutcome::ClientError(e) => r == (Responses::PdfAnalyzer {
                status: Status { is_healthy: false, error: Some(HealthCheckError::ReqwestError(e)) },
                health: None,
            }),
            PdfOutcome::RequestError(e) => r == (Responses::PdfAnalyzer {
                status: Status { is_healthy: false, error: Some(HealthCheckError::ReqwestError(e)) },
                health: None,
            }),
            PdfOutcome::BodyError(e) => r == (Responses::PdfAnalyzer {
                status: Status { is_healthy: false, error: Some(HealthCheckError::ParseError(e)) },
                health: None,
            }),
            PdfOutcome::Info(info) => r == (Responses::PdfAnalyzer {
                status: Status { is_healthy: true, error: None },
                health: Some(PdfAnalyzerHealth { info }),
            }),
        },
{
    match outcome {
        PdfOutcome::ClientError(e) => Responses::PdfAnalyzer {
            status: Status::unhealthy(HealthCheckError::ReqwestError(e)),
            health: None,
        },
        PdfOutcome::RequestError(e) => Responses::PdfAnalyzer {
            status: Status::unhealthy(HealthCheckError::ReqwestError(e)),
            health: None,
        },
        PdfOutcome::BodyError(e) => Responses::PdfAnalyzer {
            status: Status::unhealthy(HealthCheckError::ParseError(e)),
            health: None,
        },
        PdfOutcome::Info(info) => Responses::PdfAnalyzer {
            status: Status::healthy(),
            health: Some(PdfAnalyzerHealth { info }),
        },
    }
}

} // verus!
