use super::cli::{
    account_of, account_reply, login_reply, status_of, status_reply, switch_reply, uptime_of,
    AccountView, StatusView, ALREADY_LOGGED_IN, DISCONNECTED, NOT_LOGGED_IN,
};
use super::command::{CliErrorView, CommandView, ReplyView};
use super::re::{word_list, RegexError};
use super::settings::{set_reply, INVALID_COMMAND};
use super::values::{
    protocol_of, technology_of, uptime_millis, uptime_seconds, Byte, Date, Duration, Transfer,
};
use crate::net::ip_addr_of;
use crate::text::{eq_ignore_case, is_substring};
use vstd::prelude::*;

verus! {

/// The parts of a connection that a result cannot do without, in the order
/// in which they are read.
pub open spec fn status_part(error: RegexError) -> Option<int> {
    match error {
        RegexError::StatusHostname => Some(0),
        RegexError::StatusCountry => Some(1),
        RegexError::StatusCity => Some(2),
        RegexError::StatusIp => Some(3),
        RegexError::StatusTechnology => Some(4),
        RegexError::StatusProtocol => Some(5),
        RegexError::StatusTransfer => Some(6),
        _ => None,
    }
}

/// Whether the part of a connection that `error` stands for is there and can
/// be read.
pub open spec fn status_part_read(
    error: RegexError,
    groups: Map<Seq<char>, Seq<char>>,
    received: Option<u128>,
    sent: Option<u128>,
) -> bool {
    match error {
        RegexError::StatusHostname => groups.contains_key("hostname"@),
        RegexError::StatusCountry => groups.contains_key("country"@),
        RegexError::StatusCity => groups.contains_key("city"@),
        RegexError::StatusIp => groups.contains_key("ip"@) && ip_addr_of(groups["ip"@]) is Some,
        RegexError::StatusTechnology => groups.contains_key("technology"@) && technology_of(
            groups["technology"@],
        ) is Some,
        RegexError::StatusProtocol => groups.contains_key("protocol"@) && protocol_of(
            groups["protocol"@],
        ) is Some,
        RegexError::StatusTransfer => received is Some && sent is Some,
        _ => true,
    }
}

/// A reply that gives every part of a connection, each in a form that can be
/// read, stands for that connection: each text as it is, and each value as it
/// was read from its text.
pub proof fn lemma_status_complete(
    run: CommandView,
    groups: Map<Seq<char>, Seq<char>>,
    received: Option<u128>,
    sent: Option<u128>,
)
    requires
        forall|part: RegexError| #[trigger]
            status_part(part) is Some ==> status_part_read(part, groups, received, sent),
        uptime_of(groups) is Some,
    ensures
        status_of(run, groups, received, sent) == Ok::<StatusView, CliErrorView>(
            StatusView {
                hostname: groups["hostname"@],
                country: groups["country"@],
                city: groups["city"@],
                ip: ip_addr_of(groups["ip"@])->0,
                technology: technology_of(groups["technology"@])->0,
                protocol: protocol_of(groups["protocol"@])->0,
                transfer: Transfer {
                    received: Byte { bytes: received->0 },
                    sent: Byte { bytes: sent->0 },
                },
                uptime: uptime_of(groups)->0,
            },
        ),
{
    assert(status_part(RegexError::StatusHostname) is Some);
    assert(status_part(RegexError::StatusCountry) is Some);
    assert(status_part(RegexError::StatusCity) is Some);
    assert(status_part(RegexError::StatusIp) is Some);
    assert(status_part(RegexError::StatusTechnology) is Some);
    assert(status_part(RegexError::StatusProtocol) is Some);
    assert(status_part(RegexError::StatusTransfer) is Some);
}

/// A reply fails with the error of the first part, in the order in which they
/// are read, that is missing or cannot be read, and with no other. So a reply
/// that lacks one part alone fails with the error of that part.
pub proof fn lemma_status_missing(
    run: CommandView,
    groups: Map<Seq<char>, Seq<char>>,
    received: Option<u128>,
    sent: Option<u128>,
    missing: RegexError,
)
    requires
        status_part(missing) is Some,
        !status_part_read(missing, groups, received, sent),
        forall|part: RegexError|
            status_part(part) is Some && status_part(part)->0 < status_part(missing)->0
                ==> #[trigger] status_part_read(part, groups, received, sent),
    ensures
        status_of(run, groups, received, sent) == Err::<StatusView, CliErrorView>(
            CliErrorView::RegexError(missing, run),
        ),
{
    let before = |part: RegexError|
        status_part(part)->0 < status_part(missing)->0 ==> status_part_read(
            part,
            groups,
            received,
            sent,
        );
    assert(before(RegexError::StatusHostname));
    assert(before(RegexError::StatusCountry));
    assert(before(RegexError::StatusCity));
    assert(before(RegexError::StatusIp));
    assert(before(RegexError::StatusTechnology));
    assert(before(RegexError::StatusProtocol));
    assert(before(RegexError::StatusTransfer));
}

/// A reply fails with one of the errors of a connection only: that of a part,
/// or that of the whole reply, which stands for a time that cannot be read.
pub proof fn lemma_status_errors(
    run: CommandView,
    groups: Map<Seq<char>, Seq<char>>,
    received: Option<u128>,
    sent: Option<u128>,
)
    ensures
        match status_of(run, groups, received, sent) {
            Ok(_) => true,
            Err(CliErrorView::RegexError(error, command)) => command == run && (status_part(error)
                is Some || error == RegexError::Status),
            Err(_) => false,
        },
{
}

/// An account fails with the error of the first of address, state and day
/// that is missing, and stands with all three.
pub proof fn lemma_account_parts(
    run: CommandView,
    groups: Map<Seq<char>, Seq<char>>,
    expires: Option<Date>,
)
    ensures
        !groups.contains_key("email"@) ==> account_of(run, groups, expires) == Err::<
            AccountView,
            CliErrorView,
        >(CliErrorView::RegexError(RegexError::AccountEmail, run)),
        groups.contains_key("email"@) && !groups.contains_key("active"@) ==> account_of(
            run,
            groups,
            expires,
        ) == Err::<AccountView, CliErrorView>(
            CliErrorView::RegexError(RegexError::AccountActive, run),
        ),
        groups.contains_key("email"@) && groups.contains_key("active"@) && expires is None
            ==> account_of(run, groups, expires) == Err::<AccountView, CliErrorView>(
            CliErrorView::RegexError(RegexError::AccountExpires, run),
        ),
        groups.contains_key("email"@) && groups.contains_key("active"@) && expires is Some
            ==> account_of(run, groups, expires) == Ok::<AccountView, CliErrorView>(
            AccountView {
                email: groups["email"@],
                active: eq_ignore_case(groups["active"@], "active"@),
                expires: expires->0,
            },
        ),
{
}

/// A reply that gives no part of the time stands for no time at all.
pub proof fn lemma_uptime_empty(groups: Map<Seq<char>, Seq<char>>)
    requires
        !groups.contains_key("uptime_years"@),
        !groups.contains_key("uptime_months"@),
        !groups.contains_key("uptime_days"@),
        !groups.contains_key("uptime_hours"@),
        !groups.contains_key("uptime_minutes"@),
        !groups.contains_key("uptime_seconds"@),
    ensures
        uptime_of(groups) == Some(Duration { milliseconds: 0 }),
{
}

/// Below its bound, a time is a thousand times its seconds, and its seconds
/// are the sum of the parts by their weights.
pub proof fn lemma_uptime_exact(
    years: nat,
    months: nat,
    days: nat,
    hours: nat,
    minutes: nat,
    seconds: nat,
)
    requires
        1000 * uptime_seconds(years, months, days, hours, minutes, seconds) <= i64::MAX,
    ensures
        uptime_millis(years, months, days, hours, minutes, seconds) == 1000 * (seconds + 60
            * minutes + 3600 * hours + 86400 * days + 2_628_000 * months + 31_540_000 * years),
{
}

/// A time grows with each of its parts.
pub proof fn lemma_uptime_monotone(
    years: nat,
    months: nat,
    days: nat,
    hours: nat,
    minutes: nat,
    seconds: nat,
    more: nat,
)
    ensures
        uptime_millis(years, months, days, hours, minutes, seconds) <= uptime_millis(
            years + more,
            months,
            days,
            hours,
            minutes,
            seconds,
        ),
        uptime_millis(years, months, days, hours, minutes, seconds) <= uptime_millis(
            years,
            months,
            days,
            hours,
            minutes,
            seconds + more,
        ),
{
}

/// The sentence that says that there is nothing to tell counts before the way
/// in which the process ended: with it, a reply is no error, with or without
/// success.
pub proof fn lemma_sentence_first(reply: ReplyView)
    ensures
        is_substring(NOT_LOGGED_IN@, reply.stdout) ==> account_reply(reply) == Ok::<
            Option<AccountView>,
            CliErrorView,
        >(None),
        is_substring(ALREADY_LOGGED_IN@, reply.stdout) ==> login_reply(reply) == Ok::<
            Option<Seq<char>>,
            CliErrorView,
        >(None),
        is_substring(DISCONNECTED@, reply.stdout) ==> status_reply(reply) == Ok::<
            Option<StatusView>,
            CliErrorView,
        >(None),
{
}

/// Without one of its sentences, a reply to an operation that answers with a
/// sentence is an error: `FailedCommand` after a process that failed, and
/// `BadOutput` after one that did not.
pub proof fn lemma_switch_errors(reply: ReplyView, unchanged: Seq<char>, changed: Seq<char>)
    requires
        !is_substring(unchanged, reply.stdout),
        !is_substring(changed, reply.stdout),
    ensures
        switch_reply(reply, unchanged, changed) == Err::<bool, CliErrorView>(
            if reply.success {
                CliErrorView::BadOutput(reply.command)
            } else {
                CliErrorView::FailedCommand(reply.command)
            },
        ),
{
}

/// Values that the tool does not take are told as such, with the setting and
/// the values, whatever else the reply holds and however the process ended;
/// and `set` succeeds on a reply of a process that ended with success and
/// holds neither sentence, and on no other.
pub proof fn lemma_set_reply(
    setting: Seq<char>,
    values: Seq<Seq<char>>,
    reply: ReplyView,
    unknown: bool,
)
    ensures
        is_substring(INVALID_COMMAND@, reply.stdout) ==> set_reply(setting, values, reply, unknown)
            == Err::<(), CliErrorView>(CliErrorView::InvalidSettingValue(setting, values)),
        set_reply(setting, values, reply, unknown) is Ok <==> !is_substring(
            INVALID_COMMAND@,
            reply.stdout,
        ) && !unknown && reply.success,
{
}

/// A list that was read is never empty: where there is no word, there is no
/// list.
pub proof fn lemma_list_not_empty(matches: Seq<Seq<Option<Seq<char>>>>)
    ensures
        word_list(matches) matches Some(list) ==> list.len() == matches.len() && list.len() > 0,
        matches.len() == 0 ==> word_list(matches) is None,
{
}

} // verus!
