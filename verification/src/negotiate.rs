//! Choosing the base address: encrypted transport where it works, plaintext
//! where only that works, and no address at all where neither does.
//!
//! An address that names its scheme is taken as it is. Any other is probed,
//! first encrypted, then, only if that failed, in plaintext. A probe is one
//! authentication exchange whose reply is looked at for success and
//! otherwise thrown away. The caller performs the probes, one at a time,
//! and reports each outcome to [`advance`].

use vstd::prelude::*;
use vstd::string::*;
use crate::api::{is_success, success_status, ApiError, Exchange};
use crate::text::starts_with;

verus! {

/// Seconds that a probe may take.
pub const PROBE_TIMEOUT_SECS: u64 = 5;

/// Seconds that any other request may take.
pub const REQUEST_TIMEOUT_SECS: u64 = 30;

/// The transport that a probe tries.
#[derive(Debug, Clone, Copy, PartialEq, Eq, Structural)]
pub enum Transport {
    Encrypted,
    Plaintext,
}

/// What to do next.
#[derive(Debug, Clone)]
pub enum Negotiation {
    /// Probe the given base address over the given transport, and report
    /// the outcome.
    Probe(Transport, String),
    /// Use the given base address. Nothing more is to be probed.
    Resolved(String),
    /// Give up with a connectivity failure: nothing answered. No
    /// authentication may be attempted.
    Failed,
}

/// Mathematical model of a [`Negotiation`].
pub enum NegotiationView {
    Probe(Transport, Seq<char>),
    Resolved(Seq<char>),
    Failed,
}

impl View for Negotiation {
    type V = NegotiationView;

    open spec fn view(&self) -> NegotiationView {
        match self {
            Negotiation::Probe(t, url) => NegotiationView::Probe(*t, url@),
            Negotiation::Resolved(url) => NegotiationView::Resolved(url@),
            Negotiation::Failed => NegotiationView::Failed,
        }
    }
}

/// Whether an address names its scheme.
pub open spec fn names_scheme(controller: Seq<char>) -> bool {
    "http://"@.is_prefix_of(controller) || "https://"@.is_prefix_of(controller)
}

/// The base address of a controller over a transport.
pub open spec fn candidate(transport: Transport, controller: Seq<char>) -> Seq<char> {
    match transport {
        Transport::Encrypted => "https://"@ + controller,
        Transport::Plaintext => "http://"@ + controller,
    }
}

/// Whether a probe succeeded: it did where a reply came and its status
/// reports success.
pub open spec fn probe_ok(outcome: Exchange) -> bool {
    match outcome {
        Exchange::Failed => false,
        Exchange::Answered { status, body } => success_status(status),
    }
}

/// The first step for a controller address.
pub open spec fn first_step(controller: Seq<char>) -> NegotiationView {
    if names_scheme(controller) {
        NegotiationView::Resolved(controller)
    } else {
        NegotiationView::Probe(Transport::Encrypted, candidate(Transport::Encrypted, controller))
    }
}

/// The step after a probe over `probed` that succeeded or did not.
pub open spec fn next_step(controller: Seq<char>, probed: Transport, succeeded: bool) -> NegotiationView {
    if succeeded {
        NegotiationView::Resolved(candidate(probed, controller))
    } else {
        match probed {
            Transport::Encrypted => NegotiationView::Probe(
                Transport::Plaintext,
                candidate(Transport::Plaintext, controller),
            ),
            Transport::Plaintext => NegotiationView::Failed,
        }
    }
}

/// Where the negotiation for an address without a scheme ends, given what
/// each probe would answer: the encrypted address if that probe succeeds,
/// else the plaintext address if that one does, else nowhere.
pub open spec fn negotiated(controller: Seq<char>, encrypted_ok: bool, plaintext_ok: bool) -> Option<
    Seq<char>,
> {
    if names_scheme(controller) {
        Some(controller)
    } else if encrypted_ok {
        Some(candidate(Transport::Encrypted, controller))
    } else if plaintext_ok {
        Some(candidate(Transport::Plaintext, controller))
    } else {
        None
    }
}

/// Where following the steps ends: the first step, then the step after
/// each probe that is asked for, the encrypted probe answering
/// `encrypted_ok` and the plaintext probe `plaintext_ok`.
pub open spec fn followed(controller: Seq<char>, encrypted_ok: bool, plaintext_ok: bool) -> Option<
    Seq<char>,
> {
    match first_step(controller) {
        NegotiationView::Resolved(url) => Some(url),
        NegotiationView::Failed => None,
        NegotiationView::Probe(first, _) => match next_step(
            controller,
            first,
            if first == Transport::Encrypted {
                encrypted_ok
            } else {
                plaintext_ok
            },
        ) {
            NegotiationView::Resolved(url) => Some(url),
            NegotiationView::Failed => None,
            NegotiationView::Probe(second, _) => match next_step(
                controller,
                second,
                if second == Transport::Encrypted {
                    encrypted_ok
                } else {
                    plaintext_ok
                },
            ) {
                NegotiationView::Resolved(url) => Some(url),
                _ => None,
            },
        },
    }
}

/// Following the steps leads to the address that [`negotiated`] names, and
/// to none where it names none.
pub proof fn lemma_steps_reach_negotiated(
    controller: Seq<char>,
    encrypted_ok: bool,
    plaintext_ok: bool,
)
    ensures
        followed(controller, encrypted_ok, plaintext_ok) == negotiated(
            controller,
            encrypted_ok,
            plaintext_ok,
        ),
{
}

/// A probe is asked for in two cases only: the encrypted probe at the
/// start, for an address that names no scheme, and the plaintext probe
/// after the encrypted probe failed. So the probes come one after the
/// other, and plaintext is never tried while encryption works.
pub proof fn lemma_plaintext_only_after_encrypted_failed(
    controller: Seq<char>,
    probed: Transport,
    succeeded: bool,
)
    ensures
        first_step(controller) matches NegotiationView::Probe(t, url) ==> t == Transport::Encrypted
            && !names_scheme(controller) && url == candidate(Transport::Encrypted, controller),
        next_step(controller, probed, succeeded) matches NegotiationView::Probe(t, url) ==> t
            == Transport::Plaintext && probed == Transport::Encrypted && !succeeded && url
            == candidate(Transport::Plaintext, controller),
        !(first_step(controller) is Failed),
        next_step(controller, probed, succeeded) is Failed ==> probed == Transport::Plaintext
            && !succeeded,
{
}

impl Negotiation {
    /// How the negotiation ended, if it has: with a base address, or with
    /// a connectivity failure. None while a probe is still to be made.
    pub fn settled(&self) -> (r: Option<Result<String, ApiError>>)
        ensures
            match self@ {
                NegotiationView::Probe(_, _) => r is None,
                NegotiationView::Resolved(url) => r matches Some(Ok(u)) && u@ == url,
                NegotiationView::Failed => r == Some(
                    Err::<String, ApiError>(ApiError::Connectivity),
                ),
            },
    {
        match self {
            Negotiation::Probe(_, _) => None,
            Negotiation::Resolved(url) => Some(Ok(url.clone())),
            Negotiation::Failed => Some(Err(ApiError::Connectivity)),
        }
    }
}

/// Whether an address names its scheme.
pub fn has_scheme(controller: &str) -> (r: bool)
    ensures
        r == names_scheme(controller@),
{
    starts_with(controller, "http://") || starts_with(controller, "https://")
}

/// The base address of a controller over a transport.
pub fn candidate_url(transport: Transport, controller: &str) -> (r: String)
    ensures
        r@ == candidate(transport, controller@),
{
    let mut out = match transport {
        Transport::Encrypted => String::from_str("https://"),
        Transport::Plaintext => String::from_str("http://"),
    };
    out.append(controller);
    out
}

/// Whether a probe succeeded.
pub fn probe_succeeded(outcome: &Exchange) -> (r: bool)
    ensures
        r == probe_ok(*outcome),
{
    match outcome {
        Exchange::Failed => false,
        Exchange::Answered { status, body } => is_success(*status),
    }
}

/// The first step for a controller address: none to probe where it names
/// its scheme, else the encrypted probe.
pub fn begin(controller: &str) -> (r: Negotiation)
    ensures
        r@ == first_step(controller@),
{
    if has_scheme(controller) {
        Negotiation::Resolved(String::from_str(controller))
    } else {
        Negotiation::Probe(Transport::Encrypted, candidate_url(Transport::Encrypted, controller))
    }
}

/// The step after the probe over `probed` ended with `outcome`.
pub fn advance(controller: &str, probed: Transport, outcome: &Exchange) -> (r: Negotiation)
    ensures
        r@ == next_step(controller@, probed, probe_ok(*outcome)),
{
    if probe_succeeded(outcome) {
        Negotiation::Resolved(candidate_url(probed, controller))
    } else {
        match probed {
            Transport::Encrypted => Negotiation::Probe(
                Transport::Plaintext,
                candidate_url(Transport::Plaintext, controller),
            ),
            Transport::Plaintext => Negotiation::Failed,
        }
    }
}

} // verus!
