//! Forwarding from a port of the guest to a Unix socket of the host.
//!
//! The host dials the guest again and again. A connection that sends a first byte is bridged to the
//! Unix socket until either side ends or the forwarding is shut down.

use url::{ParseError, Url};
use vstd::prelude::*;
use vstd::string::*;

use crate::decimal::{parse_u64, parse_uint};
use crate::text::str_eq;

verus! {

broadcast use vstd::string::group_string_axioms;

/// How long to wait before the guest is dialled again, in seconds.
pub const DIAL_RETRY_SECS: u64 = 2;

/// The scheme of the agent's URL.
pub const VSOCK_SCHEME: &'static str = "vsock";

/// Errors of the URL parser.
#[verifier::external_type_specification]
#[verifier::external_body]
pub struct ExParseError(ParseError);

/// The scheme of a URL, and its host if it has one, as the url crate's parser finds them; nothing
/// where the text is not a URL.
pub uninterp spec fn url_parts(text: Seq<char>) -> Option<(Seq<char>, Option<Seq<char>>)>;

/// The parts in the parser's answer.
pub open spec fn parts_found(
    r: Result<(String, Option<String>), ParseError>,
) -> Option<(Seq<char>, Option<Seq<char>>)> {
    match r {
        Ok(p) => Some((p.0@, crate::mount::text_of(p.1))),
        Err(_) => None,
    }
}

/// Calls the url crate's `Url::parse`, and `scheme` and `host_str` on what it gives. Trusted: the
/// outcome depends on the text alone.
#[verifier::external_body]
fn parse_url(text: &str) -> (r: Result<(String, Option<String>), ParseError>)
    ensures
        parts_found(r) == url_parts(text@),
{
    let url = Url::parse(text)?;
    let host = match url.host_str() {
        Some(host) => Some(host.to_owned()),
        None => None,
    };
    Ok((url.scheme().to_owned(), host))
}

/// Why the guest cannot be told from the agent's URL.
#[derive(Clone, Copy, Debug, PartialEq, Eq, Structural)]
pub enum ForwardError {
    /// The text is not a URL.
    InvalidUrl,
    /// The URL has another scheme.
    WrongScheme,
    /// The URL has no host.
    NoGuestCid,
    /// The host is not a context identifier.
    InvalidGuestCid,
}

impl ForwardError {
    /// The error in words.
    pub open spec fn text(&self) -> Seq<char> {
        match self {
            ForwardError::InvalidUrl => "parse agent url"@,
            ForwardError::WrongScheme => "vsock UDS forward requires vsock agent URL"@,
            ForwardError::NoGuestCid => "cannot parse guest CID from agent URL"@,
            ForwardError::InvalidGuestCid => "invalid guest CID in agent URL"@,
        }
    }

    /// The error in words.
    pub fn message(&self) -> (r: &'static str)
        ensures
            r@ == self.text(),
    {
        match self {
            ForwardError::InvalidUrl => "parse agent url",
            ForwardError::WrongScheme => "vsock UDS forward requires vsock agent URL",
            ForwardError::NoGuestCid => "cannot parse guest CID from agent URL",
            ForwardError::InvalidGuestCid => "invalid guest CID in agent URL",
        }
    }
}

/// The guest's context identifier: the host of a URL of the right scheme.
pub open spec fn guest_cid(
    scheme: Seq<char>,
    host: Option<Seq<char>>,
) -> Result<u32, ForwardError> {
    if scheme != VSOCK_SCHEME@ {
        Err(ForwardError::WrongScheme)
    } else {
        match host {
            None => Err(ForwardError::NoGuestCid),
            Some(host) => match parse_uint(host, u32::MAX as nat) {
                Some(cid) => Ok(cid as u32),
                None => Err(ForwardError::InvalidGuestCid),
            },
        }
    }
}

/// The guest's context identifier, from the scheme and the host of the agent's URL.
pub fn guest_cid_from_parts(
    scheme: &str,
    host: &Option<String>,
) -> (r: Result<u32, ForwardError>)
    ensures
        r == guest_cid(scheme@, crate::mount::text_of(*host)),
{
    if !str_eq(scheme, VSOCK_SCHEME) {
        return Err(ForwardError::WrongScheme);
    }
    match host {
        None => Err(ForwardError::NoGuestCid),
        Some(host) => match parse_u64(host.as_str(), u32::MAX as u64) {
            Some(cid) => Ok(cid as u32),
            None => Err(ForwardError::InvalidGuestCid),
        },
    }
}

/// The guest's context identifier, from the agent's URL.
pub fn guest_cid_from_agent_url(agent_url: &str) -> (r: Result<u32, ForwardError>)
    ensures
        r == (match url_parts(agent_url@) {
            Some(p) => guest_cid(p.0, p.1),
            None => Err(ForwardError::InvalidUrl),
        }),
{
    match parse_url(agent_url) {
        Ok((scheme, host)) => guest_cid_from_parts(scheme.as_str(), &host),
        Err(_) => Err(ForwardError::InvalidUrl),
    }
}

/// What happened in the dialling loop.
#[derive(Clone, Copy, Debug, PartialEq, Eq, Structural)]
pub enum DialEvent {
    /// The loop comes round; the flag says whether it was told to shut down.
    Round(bool),
    /// The guest was dialled; the flag says whether it answered.
    Dialled(bool),
    /// The bridge ended, however it went.
    BridgeEnded,
    /// The wait is over; the flag says whether that is because of the shutdown.
    Waited(bool),
}

/// What the dialling loop does next.
#[derive(Clone, Copy, Debug, PartialEq, Eq, Structural)]
pub enum DialAction {
    /// It ends.
    Stop,
    /// It dials the guest.
    Dial,
    /// It bridges the connection.
    Bridge,
    /// It waits for the time between two calls, or for the shutdown.
    Wait,
    /// It comes round again.
    Again,
}

/// What the dialling loop does after an event.
pub open spec fn dial_action(event: DialEvent) -> DialAction {
    match event {
        DialEvent::Round(true) => DialAction::Stop,
        DialEvent::Round(false) => DialAction::Dial,
        DialEvent::Dialled(true) => DialAction::Bridge,
        DialEvent::Dialled(false) => DialAction::Wait,
        DialEvent::BridgeEnded => DialAction::Wait,
        DialEvent::Waited(true) => DialAction::Stop,
        DialEvent::Waited(false) => DialAction::Again,
    }
}

/// What the dialling loop does after an event.
pub fn run_dial_loop(event: DialEvent) -> (r: DialAction)
    ensures
        r == dial_action(event),
{
    match event {
        DialEvent::Round(shutdown) => if shutdown {
            DialAction::Stop
        } else {
            DialAction::Dial
        },
        DialEvent::Dialled(answered) => if answered {
            DialAction::Bridge
        } else {
            DialAction::Wait
        },
        DialEvent::BridgeEnded => DialAction::Wait,
        DialEvent::Waited(shutdown) => if shutdown {
            DialAction::Stop
        } else {
            DialAction::Again
        },
    }
}

/// What happened on a bridge.
#[derive(Clone, Copy, Debug, PartialEq, Eq, Structural)]
pub enum BridgeEvent {
    /// The guest was read for its first byte: so many bytes came, or the read failed.
    FirstRead(Option<usize>),
    /// The Unix socket was dialled; the flag says whether it answered.
    UnixDialled(bool),
    /// The first byte was passed on; the flag says whether that worked.
    FirstWritten(bool),
    /// Both directions ended, or the forwarding is shut down.
    CopyEnded,
}

/// What a bridge does next.
#[derive(Clone, Copy, Debug, PartialEq, Eq, Structural)]
pub enum BridgeAction {
    /// It ends.
    End,
    /// It ends with an error.
    Fail,
    /// It dials the Unix socket.
    DialUnix,
    /// It passes the first byte on.
    WriteFirst,
    /// It copies in both directions.
    Copy,
}

/// What a bridge does after an event. The Unix socket is not dialled before the guest has sent
/// something.
pub open spec fn bridge_action(event: BridgeEvent) -> BridgeAction {
    match event {
        BridgeEvent::FirstRead(Some(n)) => if n == 0 {
            BridgeAction::End
        } else {
            BridgeAction::DialUnix
        },
        BridgeEvent::FirstRead(None) => BridgeAction::End,
        BridgeEvent::UnixDialled(true) => BridgeAction::WriteFirst,
        BridgeEvent::UnixDialled(false) => BridgeAction::End,
        BridgeEvent::FirstWritten(true) => BridgeAction::Copy,
        BridgeEvent::FirstWritten(false) => BridgeAction::Fail,
        BridgeEvent::CopyEnded => BridgeAction::End,
    }
}

/// What a bridge does after an event.
pub fn bridge(event: BridgeEvent) -> (r: BridgeAction)
    ensures
        r == bridge_action(event),
{
    match event {
        BridgeEvent::FirstRead(read) => match read {
            Some(n) => if n == 0 {
                BridgeAction::End
            } else {
                BridgeAction::DialUnix
            },
            None => BridgeAction::End,
        },
        BridgeEvent::UnixDialled(answered) => if answered {
            BridgeAction::WriteFirst
        } else {
            BridgeAction::End
        },
        BridgeEvent::FirstWritten(written) => if written {
            BridgeAction::Copy
        } else {
            BridgeAction::Fail
        },
        BridgeEvent::CopyEnded => BridgeAction::End,
    }
}

/// A guest's context identifier survives being written as the host of the agent's URL.
pub proof fn law_cid_round_trip(cid: u32)
    ensures
        guest_cid(VSOCK_SCHEME@, Some(crate::decimal::decimal(cid as nat))) == Ok::<
            u32,
            ForwardError,
        >(cid),
{
    crate::decimal::law_print_parse(cid as nat, u32::MAX as nat);
}

/// Once it is told to shut down, the dialling loop does not dial again; and it dials again only
/// after a wait.
pub proof fn law_shutdown_stops_dialling(event: DialEvent)
    ensures
        dial_action(DialEvent::Round(true)) == DialAction::Stop,
        dial_action(DialEvent::Waited(true)) == DialAction::Stop,
        dial_action(event) == DialAction::Dial ==> event == DialEvent::Round(false),
        dial_action(event) == DialAction::Again ==> event == DialEvent::Waited(false),
{
}

/// The Unix socket is dialled only after the guest has sent something.
pub proof fn law_unix_dialled_after_first_byte(event: BridgeEvent)
    ensures
        bridge_action(event) == BridgeAction::DialUnix ==> (event matches BridgeEvent::FirstRead(
            Some(n),
        ) && n > 0),
{
}

/// The guest's number is the host in a URL of the one scheme: the scheme is told first, then whether
/// there is a host, and then whether it is a number of 32 bits.
pub proof fn law_cid_is_host_of_vsock(
    scheme: &str,
    host: Option<String>,
    r: Result<u32, ForwardError>,
)
    requires
        call_ensures(guest_cid_from_parts, (scheme, &host), r),
    ensures
        scheme@ != "vsock"@ <==> r == Err::<u32, ForwardError>(ForwardError::WrongScheme),
        scheme@ == "vsock"@ ==> {
            &&& host is None <==> r == Err::<u32, ForwardError>(ForwardError::NoGuestCid)
            &&& host matches Some(h) ==> {
                let number = parse_uint(h@, 0xffff_ffff);
                &&& number is None <==> r == Err::<u32, ForwardError>(
                    ForwardError::InvalidGuestCid,
                )
                &&& number matches Some(n) ==> (r matches Ok(cid) && cid == n)
            }
        },
{
}

/// The guest's number in a URL is the one in its scheme and host, and a text that is no URL is
/// refused as such.
pub proof fn law_cid_of_url_is_of_its_parts(
    url: &str,
    r: Result<u32, ForwardError>,
    scheme: &str,
    host: Option<String>,
    parts: Result<u32, ForwardError>,
)
    requires
        call_ensures(guest_cid_from_agent_url, (url,), r),
        call_ensures(guest_cid_from_parts, (scheme, &host), parts),
    ensures
        url_parts(url@) is None <==> r == Err::<u32, ForwardError>(ForwardError::InvalidUrl),
        url_parts(url@) == Some((scheme@, crate::mount::text_of(host))) ==> r == parts,
{
}

/// Dialling goes on in rounds until it is shut down: a peer that answers is bridged, and otherwise,
/// and behind every bridge, there is a pause before the next round.
pub proof fn law_dialling_in_rounds(event: DialEvent, r: DialAction)
    requires
        call_ensures(run_dial_loop, (event,), r),
    ensures
        r == DialAction::Stop <==> event == DialEvent::Round(true) || event == DialEvent::Waited(
            true,
        ),
        r == DialAction::Dial <==> event == DialEvent::Round(false),
        r == DialAction::Bridge <==> event == DialEvent::Dialled(true),
        r == DialAction::Wait <==> event == DialEvent::Dialled(false) || event
            == DialEvent::BridgeEnded,
        r == DialAction::Again <==> event == DialEvent::Waited(false),
{
}

/// A bridge is made once the guest has sent a first byte, which is written to the Unix socket before
/// the two sides are copied. It fails only where that byte could not be written; in every other case
/// that does not go on, it ends.
pub proof fn law_bridge_begins_with_first_byte(event: BridgeEvent, r: BridgeAction)
    requires
        call_ensures(bridge, (event,), r),
    ensures
        r == BridgeAction::DialUnix <==> (event matches BridgeEvent::FirstRead(Some(n)) && n > 0),
        r == BridgeAction::WriteFirst <==> event == BridgeEvent::UnixDialled(true),
        r == BridgeAction::Copy <==> event == BridgeEvent::FirstWritten(true),
        r == BridgeAction::Fail <==> event == BridgeEvent::FirstWritten(false),
        r == BridgeAction::End <==> event == BridgeEvent::FirstRead(None) || event
            == BridgeEvent::FirstRead(Some(0usize)) || event == BridgeEvent::UnixDialled(false)
            || event == BridgeEvent::CopyEnded,
{
}

/// Every [`ForwardError`] is told in its own words.
pub proof fn law_forward_error_in_words(e: ForwardError, r: &'static str)
    requires
        call_ensures(ForwardError::message, (&e,), r),
    ensures
        e is InvalidUrl ==> r@ == "parse agent url"@,
        e is WrongScheme ==> r@ == "vsock UDS forward requires vsock agent URL"@,
        e is NoGuestCid ==> r@ == "cannot parse guest CID from agent URL"@,
        e is InvalidGuestCid ==> r@ == "invalid guest CID in agent URL"@,
{
}

} // verus!
