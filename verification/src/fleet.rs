//! The VPNs of a fleet of gateway instances, each behind its own control
//! endpoint on the local machine.
//!
//! An operation on an instance is a short conversation with that endpoint:
//! calls, waits between them, and a decision after each answer. The manager
//! makes the decisions. Each of its operations is a step function: it takes
//! the phase that the conversation is in and what has just happened, and gives
//! the next phase and what to do next. Whoever drives it performs the call or
//! the wait and comes back with the outcome, until the action is `Finish`.
//!
//! Every operation ends at once, without a call, for an instance that the
//! manager does not know.

use crate::json::{
    all_written, array_value, entries, items_text, json_string, lemma_member_behind,
    lemma_one_member, lemma_plain_text, lemma_put_at,
    lemma_sorts_by_first, map_insert, new_map, object_text, object_value, text_value, write_value,
};
use crate::text::{ascii_chars, decimal, decimal_string, join3, str_eq};
use crate::vpn::{cooling_down, is_cooling_down, is_success, status_is_success, ControlReply};
use vstd::prelude::*;

verus! {

/// Seconds to let the VPN settle after it was stopped.
pub const STOP_SETTLE_SECS: u64 = 2;

/// Seconds to let the VPN come up after it was started.
pub const START_SETTLE_SECS: u64 = 5;

/// Seconds that must lie between two reconnects of one instance.
pub const FLEET_COOLDOWN_SECS: u64 = 30;

/// Seconds that a status query is given.
pub const STATUS_TIMEOUT_SECS: u64 = 10;

/// One instance of the fleet, as configured.
#[derive(Clone, Debug)]
pub struct InstanceConfig {
    pub instance_id: String,
    pub control_port: u16,
    pub region: String,
    pub name: String,
}

/// The state that a VPN is asked to take.
#[derive(Clone, Copy, Debug, PartialEq, Eq, Structural)]
pub enum VpnStatus {
    Stopped,
    Running,
    Reconnecting,
}

/// Where a reconnect of an instance stands.
#[derive(Clone, Copy, Debug, PartialEq, Eq, Structural)]
pub enum ReconnectPhase {
    /// Not begun.
    Idle,
    /// The VPN was told to stop.
    Stopping,
    /// The VPN has stopped and is left alone for a moment.
    Settling,
    /// The VPN was told to start.
    Starting,
    /// The VPN has started and is given time to come up.
    Resuming,
    /// The new address is being looked up.
    Verifying,
    /// Over, with this result.
    Done(bool),
}

/// What has just happened in a conversation with a control endpoint.
#[derive(Clone, Copy, Debug, PartialEq, Eq, Structural)]
pub enum ControlEvent {
    /// The operation is asked for.
    Begin,
    /// The call that was asked for has been made.
    Reply(ControlReply),
    /// The wait that was asked for is over.
    Elapsed,
    /// The look-up that was asked for has been made, whatever it found.
    Verified,
}

/// What to do next in a conversation with a control endpoint.
#[derive(Clone, Copy, Debug, PartialEq, Eq, Structural)]
pub enum ControlAction {
    /// Put this status to the endpoint on `port`.
    PutStatus { port: u16, status: VpnStatus },
    /// Put the country that the rotation aims at to the endpoint on `port`.
    PutCountry { port: u16 },
    /// Wait.
    Wait { seconds: u64 },
    /// Look up status and public address of the instance on `port`.
    Verify { port: u16 },
    /// Nothing: the operation is over, with this result.
    Finish { ok: bool },
}

/// Where a rotation of an instance to another country stands.
#[derive(Clone, Copy, Debug, PartialEq, Eq, Structural)]
pub enum RotatePhase {
    /// Not begun.
    Idle,
    /// The endpoint was given the new country.
    Configuring,
    /// The country is set and the VPN reconnects.
    Reconnecting(ReconnectPhase),
    /// Over, with this result.
    Done(bool),
}

/// Where the recovery from a block stands: a plain reconnect first, and a
/// rotation to another country where that fails.
#[derive(Clone, Copy, Debug, PartialEq, Eq, Structural)]
pub enum RecoveryPhase {
    /// Not begun.
    Idle,
    /// The plain reconnect is under way.
    Reconnecting(ReconnectPhase),
    /// The plain reconnect has failed and the rotation is under way.
    Rotating(RotatePhase),
    /// Over, with this result.
    Done(bool),
}

/// Where a status query stands.
#[derive(Clone, Copy, Debug, PartialEq, Eq, Structural)]
pub enum StatusPhase {
    /// Not begun.
    Idle,
    /// The status was asked for.
    AskingStatus,
    /// The status is known and the public address was asked for.
    AskingAddress,
    /// Over: `found` says whether the instance has a status to report, and
    /// `with_address` whether its public address belongs to it.
    Done { found: bool, with_address: bool },
}

/// What to do next in a status query.
#[derive(Clone, Copy, Debug, PartialEq, Eq, Structural)]
pub enum StatusAction {
    /// Get the status from the endpoint on `port`.
    GetStatus { port: u16 },
    /// Get the public address from the endpoint on `port`.
    GetAddress { port: u16 },
    /// Nothing: the query is over.
    Finish { found: bool, with_address: bool },
}

/// What has just happened in a status query.
#[derive(Clone, Copy, Debug, PartialEq, Eq, Structural)]
pub enum StatusEvent {
    /// The query is asked for.
    Begin,
    /// The endpoint answered: `readable` says whether the body was JSON.
    Answer { status: u16, readable: bool },
    /// The endpoint did not answer.
    Unreachable,
}

/// The place of the first instance called `id`.
pub open spec fn position_of(instances: Seq<InstanceConfig>, id: Seq<char>) -> Option<int>
    decreases instances.len(),
{
    if instances.len() == 0 {
        None
    } else if instances[0].instance_id@ == id {
        Some(0)
    } else {
        match position_of(instances.skip(1), id) {
            Some(i) => Some(i + 1),
            None => None,
        }
    }
}

/// The country that follows a region in the round: Singapore, Japan, USA, and
/// round again. A region outside the round is sent to Singapore.
pub open spec fn next_country(region: Seq<char>) -> Seq<char> {
    if region == "singapore"@ {
        "Japan"@
    } else if region == "japan"@ {
        "USA"@
    } else {
        "Singapore"@
    }
}

/// The country that a rotation aims at: the one asked for, or else the next in the round.
pub open spec fn target_country(region: Seq<char>, requested: Option<Seq<char>>) -> Seq<char> {
    match requested {
        Some(country) => country,
        None => next_country(region),
    }
}

/// The address of a path on the control endpoint on `port`.
pub open spec fn control_url(port: u16, path: Seq<char>) -> Seq<char> {
    "http://localhost:"@ + ascii_chars(decimal(port as nat)) + path
}

/// The step of a reconnect that has begun: stop, wait, start, wait, verify, in
/// that order, each step taken only after the one before it succeeded.
pub open spec fn reconnect_next(phase: ReconnectPhase, event: ControlEvent, port: u16) -> (
    ReconnectPhase,
    ControlAction,
) {
    let failed = (ReconnectPhase::Done(false), ControlAction::Finish { ok: false });
    match phase {
        ReconnectPhase::Idle => failed,
        ReconnectPhase::Stopping => match event {
            ControlEvent::Reply(ControlReply::Status(status)) => if is_success(status) {
                (ReconnectPhase::Settling, ControlAction::Wait { seconds: STOP_SETTLE_SECS })
            } else {
                failed
            },
            _ => failed,
        },
        ReconnectPhase::Settling => match event {
            ControlEvent::Elapsed => (
                ReconnectPhase::Starting,
                ControlAction::PutStatus { port, status: VpnStatus::Running },
            ),
            _ => failed,
        },
        ReconnectPhase::Starting => match event {
            ControlEvent::Reply(ControlReply::Status(status)) => if is_success(status) {
                (ReconnectPhase::Resuming, ControlAction::Wait { seconds: START_SETTLE_SECS })
            } else {
                failed
            },
            _ => failed,
        },
        ReconnectPhase::Resuming => match event {
            ControlEvent::Elapsed => (ReconnectPhase::Verifying, ControlAction::Verify { port }),
            _ => failed,
        },
        ReconnectPhase::Verifying => (ReconnectPhase::Done(true), ControlAction::Finish { ok: true }),
        ReconnectPhase::Done(ok) => (ReconnectPhase::Done(ok), ControlAction::Finish { ok }),
    }
}

/// The times of the last reconnects after a reconnect of `id` was asked for at `now`.
pub open spec fn last_after_begin(
    instances: Seq<InstanceConfig>,
    last: Seq<u64>,
    cooldown: u64,
    id: Seq<char>,
    now: u64,
) -> Seq<u64> {
    match position_of(instances, id) {
        Some(i) => if cooling_down(last[i], now, cooldown) {
            last
        } else {
            last.update(i, now)
        },
        None => last,
    }
}

/// The first step of a reconnect of `id` asked for at `now`: refused for an
/// unknown instance and within the cooldown, else the VPN is told to stop.
pub open spec fn reconnect_begin(
    instances: Seq<InstanceConfig>,
    last: Seq<u64>,
    cooldown: u64,
    id: Seq<char>,
    now: u64,
) -> (ReconnectPhase, ControlAction) {
    match position_of(instances, id) {
        Some(i) => if cooling_down(last[i], now, cooldown) {
            (ReconnectPhase::Done(false), ControlAction::Finish { ok: false })
        } else {
            (
                ReconnectPhase::Stopping,
                ControlAction::PutStatus {
                    port: instances[i].control_port,
                    status: VpnStatus::Stopped,
                },
            )
        },
        None => (ReconnectPhase::Done(false), ControlAction::Finish { ok: false }),
    }
}

/// A step, at the time `now`, in milliseconds, of a reconnect of `id`, begun or not.
pub open spec fn reconnect_step(
    instances: Seq<InstanceConfig>,
    last: Seq<u64>,
    cooldown: u64,
    id: Seq<char>,
    phase: ReconnectPhase,
    event: ControlEvent,
    now: u64,
) -> (ReconnectPhase, ControlAction) {
    match position_of(instances, id) {
        Some(i) => match (phase, event) {
            (ReconnectPhase::Idle, ControlEvent::Begin) => reconnect_begin(
                instances,
                last,
                cooldown,
                id,
                now,
            ),
            _ => reconnect_next(phase, event, instances[i].control_port),
        },
        None => (ReconnectPhase::Done(false), ControlAction::Finish { ok: false }),
    }
}

/// The times of the last reconnects after a step of a reconnect of `id`.
pub open spec fn last_after_step(
    instances: Seq<InstanceConfig>,
    last: Seq<u64>,
    cooldown: u64,
    id: Seq<char>,
    phase: ReconnectPhase,
    event: ControlEvent,
    now: u64,
) -> Seq<u64> {
    match (phase, event) {
        (ReconnectPhase::Idle, ControlEvent::Begin) => last_after_begin(
            instances,
            last,
            cooldown,
            id,
            now,
        ),
        _ => last,
    }
}

/// A step of a rotation of `id`: the country is put first, and the reconnect
/// begins once the endpoint has taken it.
pub open spec fn rotate_step(
    instances: Seq<InstanceConfig>,
    last: Seq<u64>,
    cooldown: u64,
    id: Seq<char>,
    phase: RotatePhase,
    event: ControlEvent,
    now: u64,
) -> (RotatePhase, ControlAction) {
    let failed = (RotatePhase::Done(false), ControlAction::Finish { ok: false });
    match position_of(instances, id) {
        Some(i) => match phase {
            RotatePhase::Idle => match event {
                ControlEvent::Begin => (
                    RotatePhase::Configuring,
                    ControlAction::PutCountry { port: instances[i].control_port },
                ),
                _ => failed,
            },
            RotatePhase::Configuring => match event {
                ControlEvent::Reply(ControlReply::Status(status)) => if is_success(status) {
                    wrap_rotate(reconnect_begin(instances, last, cooldown, id, now))
                } else {
                    failed
                },
                _ => failed,
            },
            RotatePhase::Reconnecting(inner) => wrap_rotate(
                reconnect_next(inner, event, instances[i].control_port),
            ),
            RotatePhase::Done(ok) => (RotatePhase::Done(ok), ControlAction::Finish { ok }),
        },
        None => failed,
    }
}

/// A step of the reconnect inside a rotation, seen as a step of the rotation.
pub open spec fn wrap_rotate(step: (ReconnectPhase, ControlAction)) -> (RotatePhase, ControlAction) {
    match step.0 {
        ReconnectPhase::Done(ok) => (RotatePhase::Done(ok), ControlAction::Finish { ok }),
        inner => (RotatePhase::Reconnecting(inner), step.1),
    }
}

/// The times of the last reconnects after a step of a rotation of `id`.
pub open spec fn last_after_rotate(
    instances: Seq<InstanceConfig>,
    last: Seq<u64>,
    cooldown: u64,
    id: Seq<char>,
    phase: RotatePhase,
    event: ControlEvent,
    now: u64,
) -> Seq<u64> {
    match (phase, event) {
        (RotatePhase::Configuring, ControlEvent::Reply(ControlReply::Status(status))) => if is_success(
            status,
        ) {
            last_after_begin(instances, last, cooldown, id, now)
        } else {
            last
        },
        _ => last,
    }
}

/// A step of the recovery of `id` from a block: the plain reconnect, and the
/// rotation to the next country in the round once that has failed.
pub open spec fn recovery_step(
    instances: Seq<InstanceConfig>,
    last: Seq<u64>,
    cooldown: u64,
    id: Seq<char>,
    phase: RecoveryPhase,
    event: ControlEvent,
    now: u64,
) -> (RecoveryPhase, ControlAction) {
    match phase {
        RecoveryPhase::Idle => match event {
            ControlEvent::Begin => first_resort(
                instances,
                id,
                reconnect_begin(instances, last, cooldown, id, now),
            ),
            _ => (RecoveryPhase::Done(false), ControlAction::Finish { ok: false }),
        },
        RecoveryPhase::Reconnecting(inner) => first_resort(
            instances,
            id,
            reconnect_step(instances, last, cooldown, id, inner, event, now),
        ),
        RecoveryPhase::Rotating(inner) => wrap_recovery(
            rotate_step(instances, last, cooldown, id, inner, event, now),
        ),
        RecoveryPhase::Done(ok) => (RecoveryPhase::Done(ok), ControlAction::Finish { ok }),
    }
}

/// A step of the plain reconnect, seen as a step of the recovery: where the
/// reconnect has failed, the rotation begins.
pub open spec fn first_resort(
    instances: Seq<InstanceConfig>,
    id: Seq<char>,
    step: (ReconnectPhase, ControlAction),
) -> (RecoveryPhase, ControlAction) {
    match step.0 {
        ReconnectPhase::Done(true) => (RecoveryPhase::Done(true), ControlAction::Finish { ok: true }),
        ReconnectPhase::Done(false) => match position_of(instances, id) {
            Some(i) => (
                RecoveryPhase::Rotating(RotatePhase::Configuring),
                ControlAction::PutCountry { port: instances[i].control_port },
            ),
            None => (RecoveryPhase::Done(false), ControlAction::Finish { ok: false }),
        },
        inner => (RecoveryPhase::Reconnecting(inner), step.1),
    }
}

/// A step of the rotation, seen as a step of the recovery.
pub open spec fn wrap_recovery(step: (RotatePhase, ControlAction)) -> (RecoveryPhase, ControlAction) {
    match step.0 {
        RotatePhase::Done(ok) => (RecoveryPhase::Done(ok), ControlAction::Finish { ok }),
        inner => (RecoveryPhase::Rotating(inner), step.1),
    }
}

/// The times of the last reconnects after a step of the recovery of `id`.
pub open spec fn last_after_recovery(
    instances: Seq<InstanceConfig>,
    last: Seq<u64>,
    cooldown: u64,
    id: Seq<char>,
    phase: RecoveryPhase,
    event: ControlEvent,
    now: u64,
) -> Seq<u64> {
    match phase {
        RecoveryPhase::Idle => match event {
            ControlEvent::Begin => last_after_begin(instances, last, cooldown, id, now),
            _ => last,
        },
        RecoveryPhase::Reconnecting(inner) => last_after_step(
            instances,
            last,
            cooldown,
            id,
            inner,
            event,
            now,
        ),
        RecoveryPhase::Rotating(inner) => last_after_rotate(
            instances,
            last,
            cooldown,
            id,
            inner,
            event,
            now,
        ),
        _ => last,
    }
}

/// A step of a status query of the instance on `port`, which the manager knows.
/// A status that cannot be had ends the query; the public address is an extra
/// that the report does without.
pub open spec fn status_next(phase: StatusPhase, event: StatusEvent, port: u16) -> (
    StatusPhase,
    StatusAction,
) {
    let nothing = (
        StatusPhase::Done { found: false, with_address: false },
        StatusAction::Finish { found: false, with_address: false },
    );
    match phase {
        StatusPhase::Idle => match event {
            StatusEvent::Begin => (StatusPhase::AskingStatus, StatusAction::GetStatus { port }),
            _ => nothing,
        },
        StatusPhase::AskingStatus => match event {
            StatusEvent::Answer { status, readable } => if is_success(status) && readable {
                (StatusPhase::AskingAddress, StatusAction::GetAddress { port })
            } else {
                nothing
            },
            _ => nothing,
        },
        StatusPhase::AskingAddress => match event {
            StatusEvent::Answer { status, readable } => (
                StatusPhase::Done { found: true, with_address: is_success(status) && readable },
                StatusAction::Finish { found: true, with_address: is_success(status) && readable },
            ),
            _ => (
                StatusPhase::Done { found: true, with_address: false },
                StatusAction::Finish { found: true, with_address: false },
            ),
        },
        StatusPhase::Done { found, with_address } => (
            StatusPhase::Done { found, with_address },
            StatusAction::Finish { found, with_address },
        ),
    }
}

/// A step of a status query of `id`.
pub open spec fn status_step(
    instances: Seq<InstanceConfig>,
    id: Seq<char>,
    phase: StatusPhase,
    event: StatusEvent,
) -> (StatusPhase, StatusAction) {
    match position_of(instances, id) {
        Some(i) => status_next(phase, event, instances[i].control_port),
        None => (
            StatusPhase::Done { found: false, with_address: false },
            StatusAction::Finish { found: false, with_address: false },
        ),
    }
}

impl VpnStatus {
    /// The word for this status that the control endpoint knows.
    pub open spec fn word(self) -> Seq<char> {
        match self {
            VpnStatus::Stopped => "stopped"@,
            VpnStatus::Running => "running"@,
            VpnStatus::Reconnecting => "reconnecting"@,
        }
    }

    /// The word for this status that the control endpoint knows.
    pub fn as_str(&self) -> (w: &'static str)
        ensures
            w@ == self.word(),
    {
        match self {
            VpnStatus::Stopped => "stopped",
            VpnStatus::Running => "running",
            VpnStatus::Reconnecting => "reconnecting",
        }
    }

    /// The JSON body that asks the control endpoint for this status: an
    /// object with the status as its one member.
    pub fn body(&self) -> (json: String)
        ensures
            json@ == object_text(seq![("status"@, json_string(self.word()))]),
            json@ == "{\"status\":\""@ + self.word() + "\"}"@,
    {
        let mut map = new_map();
        map_insert(&mut map, "status", text_value(self.as_str()));
        proof {
            lemma_one_member("status"@, json_string(self.word()));
            lemma_status_text(*self);
        }
        let body = object_value(map);
        write_value(&body)
    }
}

/// The address at which the endpoint on `port` takes and tells the VPN's status.
pub fn status_url(port: u16) -> (url: String)
    ensures
        url@ == control_url(port, "/v1/vpn/status"@),
{
    let digits = decimal_string(port as u64);
    join3("http://localhost:", digits.as_str(), "/v1/vpn/status")
}

/// The address at which the endpoint on `port` tells the public address.
pub fn public_ip_url(port: u16) -> (url: String)
    ensures
        url@ == control_url(port, "/v1/publicip/ip"@),
{
    let digits = decimal_string(port as u64);
    join3("http://localhost:", digits.as_str(), "/v1/publicip/ip")
}

/// The address at which the endpoint on `port` takes new settings.
pub fn settings_url(port: u16) -> (url: String)
    ensures
        url@ == control_url(port, "/v1/settings"@),
{
    let digits = decimal_string(port as u64);
    join3("http://localhost:", digits.as_str(), "/v1/settings")
}

/// The JSON body that asks the control endpoint to leave by `country` from
/// now on: the settings of the VPN, in them those of the provider, and in
/// those the provider's name and the one country to choose servers from.
pub open spec fn country_body_of(country: Seq<char>) -> Seq<char> {
    let selection = object_text(seq![("countries"@, "["@ + json_string(country) + "]"@)]);
    let provider = object_text(
        seq![("name"@, json_string("mullvad"@)), ("server_selection"@, selection)],
    );
    let vpn = object_text(seq![("provider"@, provider)]);
    object_text(seq![("vpn"@, vpn)])
}

/// The body for a status, written out.
proof fn lemma_status_text(status: VpnStatus)
    ensures
        object_text(seq![("status"@, json_string(status.word()))]) == "{\"status\":\""@
            + status.word() + "\"}"@,
{
    reveal_strlit("{");
    reveal_strlit("}");
    reveal_strlit(":");
    reveal_strlit("status");
    reveal_strlit("stopped");
    reveal_strlit("running");
    reveal_strlit("reconnecting");
    reveal_strlit("{\"status\":\"");
    reveal_strlit("\"}");
    lemma_plain_text("status"@);
    lemma_plain_text(status.word());
    lemma_one_member("status"@, json_string(status.word()));
    assert("{"@ + json_string("status"@) + ":"@ + json_string(status.word()) + "}"@
        =~= "{\"status\":\""@ + status.word() + "\"}"@);
}

/// An object with one member between two texts: the name of the member
/// goes to the text in front.
proof fn lemma_wrapped(name: Seq<char>, head: Seq<char>, c: Seq<char>, tail: Seq<char>)
    ensures
        object_text(seq![(name, head + c + tail)]) == ("{"@ + json_string(name) + ":"@ + head) + c + (
        tail + "}"@),
{
    lemma_one_member(name, head + c + tail);
    assert("{"@ + json_string(name) + ":"@ + (head + c + tail) + "}"@ =~= ("{"@ + json_string(name)
        + ":"@ + head) + c + (tail + "}"@));
}

/// The selection of countries, written out.
proof fn lemma_selection_text(c: Seq<char>)
    ensures
        object_text(seq![("countries"@, "["@ + c + "]"@)]) == "{\"countries\":["@ + c + "]}"@,
{
    reveal_strlit("{");
    reveal_strlit("}");
    reveal_strlit(":");
    reveal_strlit("[");
    reveal_strlit("]");
    reveal_strlit("countries");
    reveal_strlit("{\"countries\":[");
    reveal_strlit("]}");
    lemma_plain_text("countries"@);
    lemma_wrapped("countries"@, "["@, c, "]"@);
    assert("{"@ + json_string("countries"@) + ":"@ + "["@ =~= "{\"countries\":["@);
    assert("]"@ + "}"@ =~= "]}"@);
}

/// The settings of the provider, written out.
proof fn lemma_provider_text(c: Seq<char>)
    ensures
        object_text(
            seq![
                ("name"@, json_string("mullvad"@)),
                ("server_selection"@, "{\"countries\":["@ + c + "]}"@),
            ],
        ) == "{\"name\":\"mullvad\",\"server_selection\":{\"countries\":["@ + c + "]}}"@,
{
    reveal_strlit("{");
    reveal_strlit("}");
    reveal_strlit(":");
    reveal_strlit(",");
    reveal_strlit("name");
    reveal_strlit("mullvad");
    reveal_strlit("server_selection");
    reveal_strlit("{\"name\":\"mullvad\",\"server_selection\":{\"countries\":[");
    reveal_strlit("{\"countries\":[");
    reveal_strlit("]}");
    reveal_strlit("]}}");
    lemma_plain_text("name"@);
    lemma_plain_text("mullvad"@);
    lemma_plain_text("server_selection"@);
    let selection = "{\"countries\":["@ + c + "]}"@;
    let first = seq![("name"@, json_string("mullvad"@))];
    let members = seq![("name"@, json_string("mullvad"@)), ("server_selection"@, selection)];
    lemma_one_member("name"@, json_string("mullvad"@));
    lemma_member_behind(first, "server_selection"@, selection);
    assert(first.push(("server_selection"@, selection)) =~= members);
    let head = "{"@ + (json_string("name"@) + ":"@ + json_string("mullvad"@)) + (","@ + json_string(
        "server_selection"@,
    ) + ":"@) + "{\"countries\":["@;
    assert(head =~= "{\"name\":\"mullvad\",\"server_selection\":{\"countries\":["@);
    assert("]}"@ + "}"@ =~= "]}}"@);
    assert(object_text(members) =~= head + c + ("]}"@ + "}"@));
}

/// The settings of the VPN, written out.
proof fn lemma_vpn_text(c: Seq<char>)
    ensures
        object_text(
            seq![
                (
                    "provider"@,
                    "{\"name\":\"mullvad\",\"server_selection\":{\"countries\":["@ + c + "]}}"@,
                ),
            ],
        ) == "{\"provider\":{\"name\":\"mullvad\",\"server_selection\":{\"countries\":["@ + c
            + "]}}}"@,
{
    reveal_strlit("{");
    reveal_strlit("}");
    reveal_strlit(":");
    reveal_strlit("provider");
    reveal_strlit("{\"name\":\"mullvad\",\"server_selection\":{\"countries\":[");
    reveal_strlit("{\"provider\":{\"name\":\"mullvad\",\"server_selection\":{\"countries\":[");
    reveal_strlit("]}}");
    reveal_strlit("]}}}");
    lemma_plain_text("provider"@);
    lemma_wrapped(
        "provider"@,
        "{\"name\":\"mullvad\",\"server_selection\":{\"countries\":["@,
        c,
        "]}}"@,
    );
    assert("{"@ + json_string("provider"@) + ":"@
        + "{\"name\":\"mullvad\",\"server_selection\":{\"countries\":["@
        =~= "{\"provider\":{\"name\":\"mullvad\",\"server_selection\":{\"countries\":["@);
    assert("]}}"@ + "}"@ =~= "]}}}"@);
}

/// The whole body, written out.
proof fn lemma_top_text(c: Seq<char>)
    ensures
        object_text(
            seq![
                (
                    "vpn"@,
                    "{\"provider\":{\"name\":\"mullvad\",\"server_selection\":{\"countries\":["@ + c
                        + "]}}}"@,
                ),
            ],
        ) == "{\"vpn\":{\"provider\":{\"name\":\"mullvad\",\"server_selection\":{\"countries\":["@
            + c + "]}}}}"@,
{
    reveal_strlit("{");
    reveal_strlit("}");
    reveal_strlit(":");
    reveal_strlit("vpn");
    reveal_strlit("{\"provider\":{\"name\":\"mullvad\",\"server_selection\":{\"countries\":[");
    reveal_strlit(
        "{\"vpn\":{\"provider\":{\"name\":\"mullvad\",\"server_selection\":{\"countries\":[",
    );
    reveal_strlit("]}}}");
    reveal_strlit("]}}}}");
    lemma_plain_text("vpn"@);
    lemma_wrapped(
        "vpn"@,
        "{\"provider\":{\"name\":\"mullvad\",\"server_selection\":{\"countries\":["@,
        c,
        "]}}}"@,
    );
    assert("{"@ + json_string("vpn"@) + ":"@
        + "{\"provider\":{\"name\":\"mullvad\",\"server_selection\":{\"countries\":["@
        =~= "{\"vpn\":{\"provider\":{\"name\":\"mullvad\",\"server_selection\":{\"countries\":["@);
    assert("]}}}"@ + "}"@ =~= "]}}}}"@);
}

/// The bodies written out.
pub proof fn law_body_text(status: VpnStatus, country: Seq<char>)
    ensures
        object_text(seq![("status"@, json_string(status.word()))]) == "{\"status\":\""@
            + status.word() + "\"}"@,
        country_body_of(country)
            == "{\"vpn\":{\"provider\":{\"name\":\"mullvad\",\"server_selection\":{\"countries\":["@
            + json_string(country) + "]}}}}"@,
{
    lemma_status_text(status);
    lemma_selection_text(json_string(country));
    lemma_provider_text(json_string(country));
    lemma_vpn_text(json_string(country));
    lemma_top_text(json_string(country));
}

/// The JSON body that asks the control endpoint to leave by `country` from now on.
pub fn country_body(country: &str) -> (json: String)
    ensures
        json@ == country_body_of(country@),
        json@ == "{\"vpn\":{\"provider\":{\"name\":\"mullvad\",\"server_selection\":{\"countries\":["@
            + json_string(country@) + "]}}}}"@,
{
    proof {
        law_body_text(VpnStatus::Running, country@);
    }
    let mut countries: Vec<serde_json::Value> = Vec::new();
    countries.push(text_value(country));
    proof {
        let items = all_written(countries@);
        assert(items.len() == 1);
        assert(items.last() == json_string(country@));
        assert(items_text(items) == json_string(country@));
    }
    let mut selection = new_map();
    map_insert(&mut selection, "countries", array_value(countries));
    let ghost selection_text = object_text(entries(selection));
    let mut provider = new_map();
    map_insert(&mut provider, "name", text_value("mullvad"));
    map_insert(&mut provider, "server_selection", object_value(selection));
    proof {
        reveal_strlit("name");
        reveal_strlit("server_selection");
        lemma_sorts_by_first("name"@, "server_selection"@);
        let first = seq![("name"@, json_string("mullvad"@))];
        lemma_one_member("name"@, json_string("mullvad"@));
        lemma_put_at(first, "server_selection"@, selection_text, 1);
        assert(first.insert(1, ("server_selection"@, selection_text)) =~= seq![
            ("name"@, json_string("mullvad"@)),
            ("server_selection"@, selection_text),
        ]);
        lemma_one_member("countries"@, "["@ + json_string(country@) + "]"@);
    }
    let ghost provider_text = object_text(entries(provider));
    let mut vpn = new_map();
    map_insert(&mut vpn, "provider", object_value(provider));
    let ghost vpn_text = object_text(entries(vpn));
    let mut top = new_map();
    map_insert(&mut top, "vpn", object_value(vpn));
    proof {
        lemma_one_member("provider"@, provider_text);
        lemma_one_member("vpn"@, vpn_text);
    }
    let body = object_value(top);
    write_value(&body)
}

/// The call that tells the process's own VPN, behind the endpoint on `port`, to reconnect.
pub fn local_reconnect_call(port: u16) -> (action: ControlAction)
    ensures
        action == (ControlAction::PutStatus { port, status: VpnStatus::Reconnecting }),
{
    ControlAction::PutStatus { port, status: VpnStatus::Reconnecting }
}

/// The country that follows `region` in the round.
pub fn rotation_default(region: &str) -> (country: &'static str)
    ensures
        country@ == next_country(region@),
{
    if str_eq(region, "singapore") {
        "Japan"
    } else if str_eq(region, "japan") {
        "USA"
    } else {
        "Singapore"
    }
}

/// The step of a reconnect that has begun.
pub fn next_reconnect_step(phase: ReconnectPhase, event: ControlEvent, port: u16) -> (step: (
    ReconnectPhase,
    ControlAction,
))
    ensures
        step == reconnect_next(phase, event, port),
{
    let failed = (ReconnectPhase::Done(false), ControlAction::Finish { ok: false });
    match phase {
        ReconnectPhase::Idle => failed,
        ReconnectPhase::Stopping => match event {
            ControlEvent::Reply(ControlReply::Status(status)) => if status_is_success(status) {
                (ReconnectPhase::Settling, ControlAction::Wait { seconds: STOP_SETTLE_SECS })
            } else {
                failed
            },
            _ => failed,
        },
        ReconnectPhase::Settling => match event {
            ControlEvent::Elapsed => (
                ReconnectPhase::Starting,
                ControlAction::PutStatus { port, status: VpnStatus::Running },
            ),
            _ => failed,
        },
        ReconnectPhase::Starting => match event {
            ControlEvent::Reply(ControlReply::Status(status)) => if status_is_success(status) {
                (ReconnectPhase::Resuming, ControlAction::Wait { seconds: START_SETTLE_SECS })
            } else {
                failed
            },
            _ => failed,
        },
        ReconnectPhase::Resuming => match event {
            ControlEvent::Elapsed => (ReconnectPhase::Verifying, ControlAction::Verify { port }),
            _ => failed,
        },
        ReconnectPhase::Verifying => (ReconnectPhase::Done(true), ControlAction::Finish { ok: true }),
        ReconnectPhase::Done(ok) => (ReconnectPhase::Done(ok), ControlAction::Finish { ok }),
    }
}

/// The step of a status query of the instance on `port`.
pub fn next_status_step(phase: StatusPhase, event: StatusEvent, port: u16) -> (step: (
    StatusPhase,
    StatusAction,
))
    ensures
        step == status_next(phase, event, port),
{
    let nothing = (
        StatusPhase::Done { found: false, with_address: false },
        StatusAction::Finish { found: false, with_address: false },
    );
    match phase {
        StatusPhase::Idle => match event {
            StatusEvent::Begin => (StatusPhase::AskingStatus, StatusAction::GetStatus { port }),
            _ => nothing,
        },
        StatusPhase::AskingStatus => match event {
            StatusEvent::Answer { status, readable } => if status_is_success(status) && readable {
                (StatusPhase::AskingAddress, StatusAction::GetAddress { port })
            } else {
                nothing
            },
            _ => nothing,
        },
        StatusPhase::AskingAddress => match event {
            StatusEvent::Answer { status, readable } => {
                let with_address: bool = status_is_success(status) && readable;
                (
                    StatusPhase::Done { found: true, with_address },
                    StatusAction::Finish { found: true, with_address },
                )
            },
            _ => (
                StatusPhase::Done { found: true, with_address: false },
                StatusAction::Finish { found: true, with_address: false },
            ),
        },
        StatusPhase::Done { found, with_address } => (
            StatusPhase::Done { found, with_address },
            StatusAction::Finish { found, with_address },
        ),
    }
}

/// The place of the first instance called `id`.
pub fn find_instance(instances: &Vec<InstanceConfig>, id: &str) -> (r: Option<usize>)
    ensures
        match r {
            Some(i) => position_of(instances@, id@) == Some(i as int) && i < instances@.len()
                && instances@[i as int].instance_id@ == id@,
            None => position_of(instances@, id@) is None,
        },
{
    let mut i: usize = 0;
    assert(instances@.skip(0) =~= instances@);
    while i < instances.len()
        invariant
            0 <= i <= instances@.len(),
            position_of(instances@, id@) == (match position_of(instances@.skip(i as int), id@) {
                Some(k) => Some(k + i),
                None => None,
            }),
        decreases instances@.len() - i,
    {
        assert(instances@.skip(i as int)[0] == instances@[i as int]);
        if str_eq(instances[i].instance_id.as_str(), id) {
            return Some(i);
        }
        assert(instances@.skip(i as int).skip(1) =~= instances@.skip(i + 1));
        i = i + 1;
    }
    None
}

/// The VPNs of the fleet: who they are, how to reach them, and when each one
/// was last reconnected.
pub struct VpnManager {
    username: String,
    password: String,
    instances: Vec<InstanceConfig>,
    last_reconnect: Vec<u64>,
    reconnect_cooldown: u64,
}

impl VpnManager {
    #[verifier::type_invariant]
    spec fn wf(self) -> bool {
        self.last_reconnect@.len() == self.instances@.len()
    }

    /// The instances of the fleet.
    pub closed spec fn fleet(self) -> Seq<InstanceConfig> {
        self.instances@
    }

    /// For each instance, the time in milliseconds of its last reconnect that was let
    /// through, and zero where there was none.
    pub closed spec fn last(self) -> Seq<u64> {
        self.last_reconnect@
    }

    /// Seconds that must lie between two reconnects of one instance.
    pub closed spec fn cooldown(self) -> u64 {
        self.reconnect_cooldown
    }

    /// The name to present to the control endpoints.
    pub closed spec fn user(self) -> Seq<char> {
        self.username@
    }

    /// The password to present to the control endpoints.
    pub closed spec fn secret(self) -> Seq<char> {
        self.password@
    }

    /// The manager of the fleet of three: Singapore, Japan and the USA.
    pub fn new(username: String, password: String) -> (m: Self)
        ensures
            m.user() == username@,
            m.secret() == password@,
            m.cooldown() == FLEET_COOLDOWN_SECS,
            m.last() == seq![0u64, 0u64, 0u64],
            m.fleet().len() == 3,
            m.fleet()[0].instance_id@ == "instance-sg"@,
            m.fleet()[0].control_port == 8001,
            m.fleet()[0].region@ == "singapore"@,
            m.fleet()[0].name@ == "Singapore"@,
            m.fleet()[1].instance_id@ == "instance-jp"@,
            m.fleet()[1].control_port == 8002,
            m.fleet()[1].region@ == "japan"@,
            m.fleet()[1].name@ == "Japan"@,
            m.fleet()[2].instance_id@ == "instance-us"@,
            m.fleet()[2].control_port == 8003,
            m.fleet()[2].region@ == "usa"@,
            m.fleet()[2].name@ == "USA"@,
    {
        let mut instances: Vec<InstanceConfig> = Vec::new();
        instances.push(
            InstanceConfig {
                instance_id: "instance-sg".to_owned(),
                control_port: 8001,
                region: "singapore".to_owned(),
                name: "Singapore".to_owned(),
            },
        );
        instances.push(
            InstanceConfig {
                instance_id: "instance-jp".to_owned(),
                control_port: 8002,
                region: "japan".to_owned(),
                name: "Japan".to_owned(),
            },
        );
        instances.push(
            InstanceConfig {
                instance_id: "instance-us".to_owned(),
                control_port: 8003,
                region: "usa".to_owned(),
                name: "USA".to_owned(),
            },
        );
        let mut last_reconnect: Vec<u64> = Vec::new();
        last_reconnect.push(0);
        last_reconnect.push(0);
        last_reconnect.push(0);
        let m = VpnManager {
            username,
            password,
            instances,
            last_reconnect,
            reconnect_cooldown: FLEET_COOLDOWN_SECS,
        };
        assert(m.last() =~= seq![0u64, 0u64, 0u64]);
        m
    }

    /// The manager of the fleet that `instances` describes, none of them
    /// reconnected yet.
    pub fn with_instances(
        username: String,
        password: String,
        instances: Vec<InstanceConfig>,
        cooldown: u64,
    ) -> (m: Self)
        ensures
            m.user() == username@,
            m.secret() == password@,
            m.cooldown() == cooldown,
            m.fleet() == instances@,
            m.last() == Seq::new(instances@.len(), |i: int| 0u64),
    {
        let mut last_reconnect: Vec<u64> = Vec::new();
        let mut i: usize = 0;
        while i < instances.len()
            invariant
                0 <= i <= instances@.len(),
                last_reconnect@ == Seq::new(i as nat, |k: int| 0u64),
            decreases instances@.len() - i,
        {
            last_reconnect.push(0);
            i = i + 1;
            assert(last_reconnect@ =~= Seq::new(i as nat, |k: int| 0u64));
        }
        VpnManager { username, password, instances, last_reconnect, reconnect_cooldown: cooldown }
    }

    /// The name to present to the control endpoints.
    pub fn username(&self) -> (name: &str)
        ensures
            name@ == self.user(),
    {
        self.username.as_str()
    }

    /// The password to present to the control endpoints.
    pub fn password(&self) -> (word: &str)
        ensures
            word@ == self.secret(),
    {
        self.password.as_str()
    }

    /// The instance called `id`, if the manager knows one.
    pub fn instance(&self, id: &str) -> (r: Option<&InstanceConfig>)
        ensures
            match r {
                Some(config) => position_of(self.fleet(), id@) is Some && *config == self.fleet()[position_of(
                    self.fleet(),
                    id@,
                ).unwrap()],
                None => position_of(self.fleet(), id@) is None,
            },
    {
        match find_instance(&self.instances, id) {
            Some(i) => Some(&self.instances[i]),
            None => None,
        }
    }

    /// The time, in milliseconds, of the last reconnect of `id` that was let through.
    pub fn last_reconnect_of(&self, id: &str) -> (r: Option<u64>)
        ensures
            match position_of(self.fleet(), id@) {
                Some(i) => 0 <= i < self.last().len() && r == Some(self.last()[i]),
                None => r is None,
            },
    {
        proof {
            use_type_invariant(self);
        }
        match find_instance(&self.instances, id) {
            Some(i) => Some(self.last_reconnect[i]),
            None => None,
        }
    }

    /// The country that a rotation of `id` aims at: `new_country` where one is
    /// given, else the next in the round after the region of the instance.
    pub fn rotation_target(&self, id: &str, new_country: Option<&str>) -> (r: Option<String>)
        ensures
            match position_of(self.fleet(), id@) {
                Some(i) => r is Some && r.unwrap()@ == target_country(
                    self.fleet()[i].region@,
                    match new_country {
                        Some(c) => Some(c@),
                        None => None,
                    },
                ),
                None => r is None,
            },
    {
        match find_instance(&self.instances, id) {
            Some(i) => match new_country {
                Some(country) => Some(country.to_owned()),
                None => Some(rotation_default(self.instances[i].region.as_str()).to_owned()),
            },
            None => None,
        }
    }

    /// Begins a reconnect of the instance at place `i`, unless it is cooling down.
    fn begin_reconnect(&mut self, i: usize, now: u64) -> (step: (ReconnectPhase, ControlAction))
        requires
            i < old(self).fleet().len(),
        ensures
            final(self).fleet() == old(self).fleet(),
            final(self).cooldown() == old(self).cooldown(),
            final(self).user() == old(self).user(),
            final(self).secret() == old(self).secret(),
            i < old(self).last().len(),
            cooling_down(old(self).last()[i as int], now, old(self).cooldown()) ==> {
                &&& final(self).last() == old(self).last()
                &&& step == (ReconnectPhase::Done(false), ControlAction::Finish { ok: false })
            },
            !cooling_down(old(self).last()[i as int], now, old(self).cooldown()) ==> {
                &&& final(self).last() == old(self).last().update(i as int, now)
                &&& step == (
                    ReconnectPhase::Stopping,
                    ControlAction::PutStatus {
                        port: old(self).fleet()[i as int].control_port,
                        status: VpnStatus::Stopped,
                    },
                )
            },
    {
        proof {
            use_type_invariant(&*self);
        }
        if is_cooling_down(self.last_reconnect[i], now, self.reconnect_cooldown) {
            (ReconnectPhase::Done(false), ControlAction::Finish { ok: false })
        } else {
            let mut times: Vec<u64> = self.last_reconnect.clone();
            times.set(i, now);
            self.last_reconnect = times;
            (
                ReconnectPhase::Stopping,
                ControlAction::PutStatus {
                    port: self.instances[i].control_port,
                    status: VpnStatus::Stopped,
                },
            )
        }
    }

    /// A step of a status query of `instance_id`.
    ///
    /// The query asks the endpoint for the VPN's status and then for the
    /// public address. It reports nothing for an unknown instance and where
    /// the status cannot be had; the address is left out where it cannot.
    pub fn get_instance_status(&self, instance_id: &str, phase: StatusPhase, event: StatusEvent) -> (step: (
        StatusPhase,
        StatusAction,
    ))
        ensures
            step == status_step(self.fleet(), instance_id@, phase, event),
    {
        match find_instance(&self.instances, instance_id) {
            Some(i) => next_status_step(phase, event, self.instances[i].control_port),
            None => (
                StatusPhase::Done { found: false, with_address: false },
                StatusAction::Finish { found: false, with_address: false },
            ),
        }
    }

    /// A step, at the time `now`, in milliseconds, of a reconnect of `instance_id`.
    ///
    /// A reconnect is stop, wait, start, wait, and a look at the new address,
    /// strictly in that order. It is refused at once for an unknown instance
    /// and for one that was reconnected less than the cooldown ago; once let
    /// through it is recorded before the first call goes out.
    pub fn reconnect_vpn(&mut self, instance_id: &str, phase: ReconnectPhase, event: ControlEvent, now: u64) -> (step: (
        ReconnectPhase,
        ControlAction,
    ))
        ensures
            step == reconnect_step(
                old(self).fleet(),
                old(self).last(),
                old(self).cooldown(),
                instance_id@,
                phase,
                event,
                now,
            ),
            final(self).last() == last_after_step(
                old(self).fleet(),
                old(self).last(),
                old(self).cooldown(),
                instance_id@,
                phase,
                event,
                now,
            ),
            final(self).fleet() == old(self).fleet(),
            final(self).cooldown() == old(self).cooldown(),
            final(self).user() == old(self).user(),
            final(self).secret() == old(self).secret(),
    {
        match find_instance(&self.instances, instance_id) {
            Some(i) => match (phase, event) {
                (ReconnectPhase::Idle, ControlEvent::Begin) => self.begin_reconnect(i, now),
                _ => next_reconnect_step(phase, event, self.instances[i].control_port),
            },
            None => (ReconnectPhase::Done(false), ControlAction::Finish { ok: false }),
        }
    }

    /// A step, at the time `now`, in milliseconds, of a rotation of `instance_id` to another
    /// country. The country itself is what `rotation_target` gives.
    ///
    /// The endpoint is given the country first; once it has taken it, the
    /// instance reconnects as in `reconnect_vpn`, cooldown included.
    pub fn rotate_server(&mut self, instance_id: &str, phase: RotatePhase, event: ControlEvent, now: u64) -> (step: (
        RotatePhase,
        ControlAction,
    ))
        ensures
            step == rotate_step(
                old(self).fleet(),
                old(self).last(),
                old(self).cooldown(),
                instance_id@,
                phase,
                event,
                now,
            ),
            final(self).last() == last_after_rotate(
                old(self).fleet(),
                old(self).last(),
                old(self).cooldown(),
                instance_id@,
                phase,
                event,
                now,
            ),
            final(self).fleet() == old(self).fleet(),
            final(self).cooldown() == old(self).cooldown(),
            final(self).user() == old(self).user(),
            final(self).secret() == old(self).secret(),
    {
        let failed = (RotatePhase::Done(false), ControlAction::Finish { ok: false });
        match find_instance(&self.instances, instance_id) {
            Some(i) => match phase {
                RotatePhase::Idle => match event {
                    ControlEvent::Begin => (
                        RotatePhase::Configuring,
                        ControlAction::PutCountry { port: self.instances[i].control_port },
                    ),
                    _ => failed,
                },
                RotatePhase::Configuring => match event {
                    ControlEvent::Reply(ControlReply::Status(status)) => if status_is_success(
                        status,
                    ) {
                        let inner = self.begin_reconnect(i, now);
                        into_rotation(inner)
                    } else {
                        failed
                    },
                    _ => failed,
                },
                RotatePhase::Reconnecting(inner) => into_rotation(
                    next_reconnect_step(inner, event, self.instances[i].control_port),
                ),
                RotatePhase::Done(ok) => (RotatePhase::Done(ok), ControlAction::Finish { ok }),
            },
            None => failed,
        }
    }

    /// A step, at the time `now`, in milliseconds, of the recovery of `instance_id` from a
    /// block by upstream: a plain reconnect, and where that fails a rotation to
    /// the next country in the round.
    pub fn handle_403_error(&mut self, instance_id: &str, phase: RecoveryPhase, event: ControlEvent, now: u64) -> (step: (
        RecoveryPhase,
        ControlAction,
    ))
        ensures
            step == recovery_step(
                old(self).fleet(),
                old(self).last(),
                old(self).cooldown(),
                instance_id@,
                phase,
                event,
                now,
            ),
            final(self).last() == last_after_recovery(
                old(self).fleet(),
                old(self).last(),
                old(self).cooldown(),
                instance_id@,
                phase,
                event,
                now,
            ),
            final(self).fleet() == old(self).fleet(),
            final(self).cooldown() == old(self).cooldown(),
            final(self).user() == old(self).user(),
            final(self).secret() == old(self).secret(),
    {
        match phase {
            RecoveryPhase::Idle => match event {
                ControlEvent::Begin => {
                    let inner = self.reconnect_vpn(
                        instance_id,
                        ReconnectPhase::Idle,
                        ControlEvent::Begin,
                        now,
                    );
                    self.after_reconnect(instance_id, inner)
                },
                _ => (RecoveryPhase::Done(false), ControlAction::Finish { ok: false }),
            },
            RecoveryPhase::Reconnecting(inner) => {
                let next = self.reconnect_vpn(instance_id, inner, event, now);
                self.after_reconnect(instance_id, next)
            },
            RecoveryPhase::Rotating(inner) => {
                let next = self.rotate_server(instance_id, inner, event, now);
                match next.0 {
                    RotatePhase::Done(ok) => (RecoveryPhase::Done(ok), ControlAction::Finish { ok }),
                    going => (RecoveryPhase::Rotating(going), next.1),
                }
            },
            RecoveryPhase::Done(ok) => (RecoveryPhase::Done(ok), ControlAction::Finish { ok }),
        }
    }

    /// A step of the plain reconnect, seen as a step of the recovery.
    fn after_reconnect(&self, instance_id: &str, step: (ReconnectPhase, ControlAction)) -> (next: (
        RecoveryPhase,
        ControlAction,
    ))
        ensures
            next == first_resort(self.fleet(), instance_id@, step),
    {
        match step.0 {
            ReconnectPhase::Done(true) => (
                RecoveryPhase::Done(true),
                ControlAction::Finish { ok: true },
            ),
            ReconnectPhase::Done(false) => match find_instance(&self.instances, instance_id) {
                Some(i) => (
                    RecoveryPhase::Rotating(RotatePhase::Configuring),
                    ControlAction::PutCountry { port: self.instances[i].control_port },
                ),
                None => (RecoveryPhase::Done(false), ControlAction::Finish { ok: false }),
            },
            inner => (RecoveryPhase::Reconnecting(inner), step.1),
        }
    }
}

/// A step of the reconnect inside a rotation, seen as a step of the rotation.
pub fn into_rotation(step: (ReconnectPhase, ControlAction)) -> (next: (RotatePhase, ControlAction))
    ensures
        next == wrap_rotate(step),
{
    match step.0 {
        ReconnectPhase::Done(ok) => (RotatePhase::Done(ok), ControlAction::Finish { ok }),
        inner => (RotatePhase::Reconnecting(inner), step.1),
    }
}

/// The place that `position_of` gives is a place of the fleet, and the
/// instance there is called `id`.
pub proof fn lemma_position_of(instances: Seq<InstanceConfig>, id: Seq<char>)
    ensures
        match position_of(instances, id) {
            Some(i) => 0 <= i < instances.len() && instances[i].instance_id@ == id,
            None => forall|k: int| 0 <= k < instances.len() ==> instances[k].instance_id@ != id,
        },
    decreases instances.len(),
{
    if instances.len() > 0 && instances[0].instance_id@ != id {
        let rest = instances.skip(1);
        lemma_position_of(rest, id);
        match position_of(rest, id) {
            Some(i) => {
                assert(rest[i] == instances[i + 1]);
            },
            None => {
                assert forall|k: int| 0 <= k < instances.len() implies instances[k].instance_id@
                    != id by {
                    if k > 0 {
                        assert(rest[k - 1] == instances[k]);
                    }
                }
            },
        }
    }
}

/// Order of a reconnect. Once the VPN was told to stop, the steps are: wait two
/// seconds, tell it to start, wait five seconds, look up the new address, done.
/// Each is taken only when the one before it went well; a call that the
/// endpoint refuses or does not answer ends the reconnect as failed.
pub proof fn law_reconnect_order(port: u16, stop: ControlReply, start: ControlReply, seen: ControlEvent)
    ensures
        reconnect_next(ReconnectPhase::Stopping, ControlEvent::Reply(stop), port) == (if reply_ok(
            stop,
        ) {
            (ReconnectPhase::Settling, ControlAction::Wait { seconds: 2 })
        } else {
            (ReconnectPhase::Done(false), ControlAction::Finish { ok: false })
        }),
        reconnect_next(ReconnectPhase::Settling, ControlEvent::Elapsed, port) == (
            ReconnectPhase::Starting,
            ControlAction::PutStatus { port, status: VpnStatus::Running },
        ),
        reconnect_next(ReconnectPhase::Starting, ControlEvent::Reply(start), port) == (if reply_ok(
            start,
        ) {
            (ReconnectPhase::Resuming, ControlAction::Wait { seconds: 5 })
        } else {
            (ReconnectPhase::Done(false), ControlAction::Finish { ok: false })
        }),
        reconnect_next(ReconnectPhase::Resuming, ControlEvent::Elapsed, port) == (
            ReconnectPhase::Verifying,
            ControlAction::Verify { port },
        ),
        reconnect_next(ReconnectPhase::Verifying, seen, port) == (
            ReconnectPhase::Done(true),
            ControlAction::Finish { ok: true },
        ),
{
}

/// True when the endpoint answered with a status of success.
pub open spec fn reply_ok(reply: ControlReply) -> bool {
    match reply {
        ControlReply::Status(status) => is_success(status),
        ControlReply::Unreachable => false,
    }
}

/// No shortcut to success. A reconnect ends well only from the last step, and
/// each phase is entered only from the one before it.
pub proof fn law_reconnect_no_shortcut(phase: ReconnectPhase, event: ControlEvent, port: u16)
    ensures
        ({
            let next = reconnect_next(phase, event, port).0;
            &&& next == ReconnectPhase::Done(true) ==> phase == ReconnectPhase::Verifying || phase
                == ReconnectPhase::Done(true)
            &&& next == ReconnectPhase::Verifying ==> phase == ReconnectPhase::Resuming
            &&& next == ReconnectPhase::Resuming ==> phase == ReconnectPhase::Starting
            &&& next == ReconnectPhase::Starting ==> phase == ReconnectPhase::Settling
            &&& next == ReconnectPhase::Settling ==> phase == ReconnectPhase::Stopping
            &&& next != ReconnectPhase::Stopping
            &&& next != ReconnectPhase::Idle
        }),
{
}

/// Unknown instances. Every operation on an instance that the manager does
/// not know ends at once as failed, asks for no call, and records nothing.
pub proof fn law_unknown_instance(
    instances: Seq<InstanceConfig>,
    last: Seq<u64>,
    cooldown: u64,
    id: Seq<char>,
    event: ControlEvent,
    now: u64,
)
    requires
        position_of(instances, id) is None,
    ensures
        forall|phase: ReconnectPhase| #[trigger]
            reconnect_step(instances, last, cooldown, id, phase, event, now) == (
                ReconnectPhase::Done(false),
                ControlAction::Finish { ok: false },
            ),
        forall|phase: ReconnectPhase| #[trigger]
            last_after_step(instances, last, cooldown, id, phase, event, now) == last,
        forall|phase: RotatePhase| #[trigger]
            rotate_step(instances, last, cooldown, id, phase, event, now) == (
                RotatePhase::Done(false),
                ControlAction::Finish { ok: false },
            ),
        forall|phase: RotatePhase| #[trigger]
            last_after_rotate(instances, last, cooldown, id, phase, event, now) == last,
        forall|phase: RecoveryPhase|
            !(phase matches RecoveryPhase::Done(_)) ==> #[trigger] recovery_step(
                instances,
                last,
                cooldown,
                id,
                phase,
                event,
                now,
            ) == (RecoveryPhase::Done(false), ControlAction::Finish { ok: false }),
        forall|phase: RecoveryPhase| #[trigger]
            last_after_recovery(instances, last, cooldown, id, phase, event, now) == last,
        forall|phase: StatusPhase, asked: StatusEvent| #[trigger]
            status_step(instances, id, phase, asked) == (
                StatusPhase::Done { found: false, with_address: false },
                StatusAction::Finish { found: false, with_address: false },
            ),
{
}

/// Cooldown of an instance. Of two reconnects of one instance asked for less
/// than the cooldown apart, the second is refused without a call; the times
/// of the other instances are not touched.
pub proof fn law_fleet_cooldown(
    instances: Seq<InstanceConfig>,
    last: Seq<u64>,
    cooldown: u64,
    id: Seq<char>,
    first: u64,
    second: u64,
)
    requires
        last.len() == instances.len(),
        reconnect_begin(instances, last, cooldown, id, first).0 == ReconnectPhase::Stopping,
        first <= second,
        second - first < cooldown * 1000,
    ensures
        reconnect_begin(
            instances,
            last_after_begin(instances, last, cooldown, id, first),
            cooldown,
            id,
            second,
        ) == (ReconnectPhase::Done(false), ControlAction::Finish { ok: false }),
        last_after_begin(
            instances,
            last_after_begin(instances, last, cooldown, id, first),
            cooldown,
            id,
            second,
        ) == last_after_begin(instances, last, cooldown, id, first),
        forall|k: int|
            0 <= k < last.len() && Some(k) != position_of(instances, id) ==> last_after_begin(
                instances,
                last,
                cooldown,
                id,
                first,
            )[k] == last[k],
{
    lemma_position_of(instances, id);
}

/// Recovery tries the plain reconnect first. It ends well as soon as the
/// reconnect does, and turns to the rotation exactly when the reconnect fails.
pub proof fn law_recovery_escalates(
    instances: Seq<InstanceConfig>,
    id: Seq<char>,
    step: (ReconnectPhase, ControlAction),
)
    requires
        position_of(instances, id) is Some,
    ensures
        step.0 == ReconnectPhase::Done(true) ==> first_resort(instances, id, step).0
            == RecoveryPhase::Done(true),
        step.0 == ReconnectPhase::Done(false) ==> first_resort(instances, id, step) == (
            RecoveryPhase::Rotating(RotatePhase::Configuring),
            ControlAction::PutCountry {
                port: instances[position_of(instances, id).unwrap()].control_port,
            },
        ),
        !(step.0 matches ReconnectPhase::Done(_)) ==> first_resort(instances, id, step) == (
            RecoveryPhase::Reconnecting(step.0),
            step.1,
        ),
{
}

} // verus!
