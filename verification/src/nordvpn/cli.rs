use super::command::{
    command, reply_of, result_view, spawned_view, CliError, CliErrorView, CliResult, Command,
    CommandView, ReplyView, Spawned,
};
use super::re::strings;
use super::re::strings::connect::COUNTRY_SERVER_HOSTNAME;
use super::re::{
    captures, captures_iter, get, list_from_matches, regex_captures, regex_captures_iter,
    word_list, Captures, RegexError,
};
use super::values::{
    byte_unit_parse, capped, chrono_parse_date, date_view, lemma_uptime_capped, parse_bytes,
    parse_date, parse_version, parts_view, protocol_of, semver_parse, technology_of,
    transfer_of, uptime_millis, version_of, Date, Duration, Protocol, Technology, Transfer,
    Version,
};
use crate::net::{ip_addr_of, IpAddr};
use crate::text::{
    contains, decimal, eq_ignore_ascii_case, eq_ignore_case, is_digits, is_substring,
    parse_decimal, texts,
};
use vstd::prelude::*;
use vstd::string::*;

verus! {

/// The name of the tool.
pub const PROGRAM: &'static str = "nordvpn";

/// What the tool says of the account, and of logging out, where nobody is
/// logged in.
pub const NOT_LOGGED_IN: &'static str = "You are not logged in.";

/// What the tool says of logging in where somebody is logged in.
pub const ALREADY_LOGGED_IN: &'static str = "You are already logged in.";

/// What the tool says once it has logged out.
pub const LOGGED_OUT: &'static str = "You are logged out.";

/// What the tool says of disconnecting where there is no connection.
pub const NOT_CONNECTED: &'static str = "You are not connected to NordVPN.";

/// What the tool says once it has disconnected.
pub const DISCONNECTED_FROM: &'static str = "You are disconnected from NordVPN.";

/// What the tool says of the connection where there is none.
pub const DISCONNECTED: &'static str = "Disconnected";

/// The form in which the day that an account expires is read: the month by
/// its first three letters, the day and the year, with hyphens between them.
pub const EXPIRES_FORMAT: &'static str = "%b-%d-%Y";

/// The account that is logged in.
#[derive(Debug, Clone, PartialEq, Eq)]
pub struct Account {
    pub email: String,
    pub active: bool,
    pub expires: Date,
}

/// What an [`Account`] holds, as texts and plain values.
pub struct AccountView {
    pub email: Seq<char>,
    pub active: bool,
    pub expires: Date,
}

impl View for Account {
    type V = AccountView;

    open spec fn view(&self) -> AccountView {
        AccountView { email: self.email@, active: self.active, expires: self.expires }
    }
}

impl DeepView for Account {
    type V = AccountView;

    open spec fn deep_view(&self) -> AccountView {
        self@
    }
}

/// The server that a new connection leads to.
#[derive(Debug, Clone, PartialEq, Eq)]
pub struct Connected {
    pub country: String,
    pub server: u32,
    pub hostname: String,
}

/// What a [`Connected`] holds, as texts and plain values.
pub struct ConnectedView {
    pub country: Seq<char>,
    pub server: u32,
    pub hostname: Seq<char>,
}

impl View for Connected {
    type V = ConnectedView;

    open spec fn view(&self) -> ConnectedView {
        ConnectedView { country: self.country@, server: self.server, hostname: self.hostname@ }
    }
}

impl DeepView for Connected {
    type V = ConnectedView;

    open spec fn deep_view(&self) -> ConnectedView {
        self@
    }
}

/// Where to connect to.
#[derive(Debug, Clone, PartialEq, Eq)]
pub enum ConnectOption {
    Country(String),
    Server(String),
    CountryCode(String),
    City(String),
    Group(String),
    CountryCity(String, String),
}

impl ConnectOption {
    /// The arguments that stand for the option on the command line.
    pub open spec fn args(self) -> Seq<Seq<char>> {
        match self {
            ConnectOption::Country(country) => seq![country@],
            ConnectOption::Server(server) => seq![server@],
            ConnectOption::CountryCode(country_code) => seq![country_code@],
            ConnectOption::City(city) => seq![city@],
            ConnectOption::Group(group) => seq![group@],
            ConnectOption::CountryCity(country, city) => seq![country@, city@],
        }
    }
}

/// The arguments that stand for an option that may be missing.
pub open spec fn option_args(option: Option<&ConnectOption>) -> Seq<Seq<char>> {
    match option {
        Some(option) => option.args(),
        None => Seq::empty(),
    }
}

/// The connection that is up.
#[derive(Debug, Clone, PartialEq, Eq)]
pub struct Status {
    pub hostname: String,
    pub country: String,
    pub city: String,
    pub ip: IpAddr,
    pub technology: Technology,
    pub protocol: Protocol,
    pub transfer: Transfer,
    pub uptime: Duration,
}

/// What a [`Status`] holds, as texts and plain values.
pub struct StatusView {
    pub hostname: Seq<char>,
    pub country: Seq<char>,
    pub city: Seq<char>,
    pub ip: IpAddr,
    pub technology: Technology,
    pub protocol: Protocol,
    pub transfer: Transfer,
    pub uptime: Duration,
}

impl View for Status {
    type V = StatusView;

    open spec fn view(&self) -> StatusView {
        StatusView {
            hostname: self.hostname@,
            country: self.country@,
            city: self.city@,
            ip: self.ip,
            technology: self.technology,
            protocol: self.protocol,
            transfer: self.transfer,
            uptime: self.uptime,
        }
    }
}

impl DeepView for Status {
    type V = StatusView;

    open spec fn deep_view(&self) -> StatusView {
        self@
    }
}

/// The command line that runs the tool with `args`.
pub open spec fn command_line(args: Seq<Seq<char>>) -> CommandView {
    CommandView { program: PROGRAM@, args }
}

/// The command lines of the tool, one for each operation.
#[derive(Debug, Clone, Copy, PartialEq, Eq)]
pub struct NordVPN;

impl NordVPN {
    /// The tool, with `args`.
    pub fn command(args: Vec<String>) -> (run: Command)
        ensures
            run@ == command_line(texts(args@)),
    {
        Command { program: String::from_str(PROGRAM), args }
    }

    fn plain(subcommand: &str) -> (run: Command)
        ensures
            run@ == command_line(seq![subcommand@]),
    {
        let mut args: Vec<String> = Vec::new();
        args.push(String::from_str(subcommand));
        assert(texts(args@) =~= seq![subcommand@]);
        NordVPN::command(args)
    }

    /// The command line that asks for the account.
    pub fn account() -> (run: Command)
        ensures
            run@ == command_line(seq!["account"@]),
    {
        NordVPN::plain("account")
    }

    /// The command line that asks for the cities of `country`.
    pub fn cities(country: &str) -> (run: Command)
        ensures
            run@ == command_line(seq!["cities"@, country@]),
    {
        let mut args: Vec<String> = Vec::new();
        args.push(String::from_str("cities"));
        args.push(String::from_str(country));
        assert(texts(args@) =~= seq!["cities"@, country@]);
        NordVPN::command(args)
    }

    /// The arguments after `connect` say where to: none, one, or, for a city
    /// of a country, the country and then the city.
    pub fn connect(option: Option<&ConnectOption>) -> (run: Command)
        ensures
            run@ == command_line(seq!["connect"@] + option_args(option)),
    {
        let mut args: Vec<String> = Vec::new();
        args.push(String::from_str("connect"));
        match option {
            Some(ConnectOption::Country(country)) => {
                args.push(country.clone());
            },
            Some(ConnectOption::Server(server)) => {
                args.push(server.clone());
            },
            Some(ConnectOption::CountryCode(country_code)) => {
                args.push(country_code.clone());
            },
            Some(ConnectOption::City(city)) => {
                args.push(city.clone());
            },
            Some(ConnectOption::Group(group)) => {
                args.push(group.clone());
            },
            Some(ConnectOption::CountryCity(country, city)) => {
                args.push(country.clone());
                args.push(city.clone());
            },
            None => {},
        }
        assert(texts(args@) =~= seq!["connect"@] + option_args(option));
        NordVPN::command(args)
    }

    /// The command line that asks for the countries.
    pub fn countries() -> (run: Command)
        ensures
            run@ == command_line(seq!["countries"@]),
    {
        NordVPN::plain("countries")
    }

    /// The command line that ends the connection.
    pub fn disconnect() -> (run: Command)
        ensures
            run@ == command_line(seq!["disconnect"@]),
    {
        NordVPN::plain("disconnect")
    }

    /// The command line that asks for the groups of servers.
    pub fn groups() -> (run: Command)
        ensures
            run@ == command_line(seq!["groups"@]),
    {
        NordVPN::plain("groups")
    }

    /// The command line that logs in.
    pub fn login() -> (run: Command)
        ensures
            run@ == command_line(seq!["login"@]),
    {
        NordVPN::plain("login")
    }

    /// The command line that logs out.
    pub fn logout() -> (run: Command)
        ensures
            run@ == command_line(seq!["logout"@]),
    {
        NordVPN::plain("logout")
    }

    /// The command line that asks for the connection.
    pub fn status() -> (run: Command)
        ensures
            run@ == command_line(seq!["status"@]),
    {
        NordVPN::plain("status")
    }

    /// The command line that asks for the version of the tool.
    pub fn version() -> (run: Command)
        ensures
            run@ == command_line(seq!["version"@]),
    {
        NordVPN::plain("version")
    }
}

/// The date that year, month and day make.
pub open spec fn date_from(parts: Option<(int, int, int)>) -> Option<Date> {
    match parts {
        Some((year, month, day)) => Some(
            Date { year: year as i32, month: month as u32, day: day as u32 },
        ),
        None => None,
    }
}

/// The day of a month, with a zero in front where it is a single character.
pub open spec fn padded_day(day: Seq<char>) -> Seq<char> {
    if day.len() == 1 {
        "0"@ + day
    } else {
        day
    }
}

/// Month, day and year in the form in which the date is read.
pub open spec fn expires_text(month: Seq<char>, day: Seq<char>, year: Seq<char>) -> Seq<char> {
    month + "-"@ + padded_day(day) + "-"@ + year
}

/// The day on which the account expires, where the reply gives month, day and
/// year and they make a day of the calendar.
pub open spec fn expires_of(groups: Map<Seq<char>, Seq<char>>) -> Option<Date> {
    if groups.contains_key("expires_month"@) && groups.contains_key("expires_day"@)
        && groups.contains_key("expires_year"@) {
        date_from(
            chrono_parse_date(
                expires_text(
                    groups["expires_month"@],
                    groups["expires_day"@],
                    groups["expires_year"@],
                ),
                EXPIRES_FORMAT@,
            ),
        )
    } else {
        None
    }
}

/// The account that the groups of a reply stand for, with the day on which it
/// expires as it was read. The first of address, state and day that is
/// missing gives the error.
pub open spec fn account_of(
    run: CommandView,
    groups: Map<Seq<char>, Seq<char>>,
    expires: Option<Date>,
) -> Result<AccountView, CliErrorView> {
    if !groups.contains_key("email"@) {
        Err(CliErrorView::RegexError(RegexError::AccountEmail, run))
    } else if !groups.contains_key("active"@) {
        Err(CliErrorView::RegexError(RegexError::AccountActive, run))
    } else if expires is None {
        Err(CliErrorView::RegexError(RegexError::AccountExpires, run))
    } else {
        Ok(
            AccountView {
                email: groups["email"@],
                active: eq_ignore_case(groups["active"@], "active"@),
                expires: expires->0,
            },
        )
    }
}

/// A result with something in it.
pub open spec fn found<T>(result: Result<T, CliErrorView>) -> Result<Option<T>, CliErrorView> {
    match result {
        Ok(value) => Ok(Some(value)),
        Err(error) => Err(error),
    }
}

/// What a reply to `account` means. Nobody logged in is no error, whatever
/// the process ended with.
pub open spec fn account_reply(reply: ReplyView) -> Result<Option<AccountView>, CliErrorView> {
    if is_substring(NOT_LOGGED_IN@, reply.stdout) {
        Ok(None)
    } else if !reply.success {
        Err(CliErrorView::FailedCommand(reply.command))
    } else {
        match regex_captures(strings::account_pattern(), reply.stdout) {
            None => Err(CliErrorView::RegexError(RegexError::Account, reply.command)),
            Some(groups) => found(account_of(reply.command, groups, expires_of(groups))),
        }
    }
}

/// What running `account` came to.
pub open spec fn account_outcome(spawned: Result<(bool, Seq<u8>), Seq<char>>) -> Result<
    Option<AccountView>,
    CliErrorView,
> {
    match reply_of(command_line(seq!["account"@]), spawned) {
        Err(error) => Err(error),
        Ok(reply) => account_reply(reply),
    }
}

/// Reads from a reply the day on which the account expires.
pub fn expires(captures: &Captures) -> (date: Option<Date>)
    ensures
        date == expires_of(captures@),
        date matches Some(d) ==> d.well_formed(),
{
    let month = match captures.name("expires_month") {
        Some(month) => month,
        None => {
            return None;
        },
    };
    let day = match captures.name("expires_day") {
        Some(day) => day,
        None => {
            return None;
        },
    };
    let year = match captures.name("expires_year") {
        Some(year) => year,
        None => {
            return None;
        },
    };
    let ghost wanted = expires_text(month@, day@, year@);
    let mut text = month;
    text.append("-");
    if day.as_str().unicode_len() == 1 {
        text.append("0");
    }
    text.append(day.as_str());
    text.append("-");
    text.append(year.as_str());
    assert(text@ =~= wanted);
    let date = parse_date(text.as_str(), EXPIRES_FORMAT);
    assert(date == date_from(date_view(date)));
    date
}

/// Makes the account of the groups of a reply and of the day that was read
/// from them.
pub fn account_from_captures(run: Command, captures: &Captures, expires: Option<Date>) -> (result:
    CliResult<Account>)
    ensures
        result_view(result) == account_of(run@, captures@, expires),
{
    let email = match captures.name("email") {
        Some(email) => email,
        None => {
            return Err(CliError::RegexError(RegexError::AccountEmail, run));
        },
    };
    let active = match captures.name("active") {
        Some(active) => eq_ignore_ascii_case(active.as_str(), "active"),
        None => {
            return Err(CliError::RegexError(RegexError::AccountActive, run));
        },
    };
    let expires = match expires {
        Some(expires) => expires,
        None => {
            return Err(CliError::RegexError(RegexError::AccountExpires, run));
        },
    };
    Ok(Account { email, active, expires })
}

/// Reads what `nordvpn account` came to: the account, or `None` where nobody
/// is logged in.
pub fn account(spawned: Spawned) -> (result: CliResult<Option<Account>>)
    ensures
        result_view(result) == account_outcome(spawned_view(spawned)),
        result matches Ok(Some(account)) ==> account.expires.well_formed(),
{
    let reply = match command(NordVPN::account(), spawned) {
        Ok(reply) => reply,
        Err(error) => {
            return Err(error);
        },
    };
    if contains(reply.stdout.as_str(), NOT_LOGGED_IN) {
        return Ok(None);
    }
    if !reply.success {
        return Err(CliError::FailedCommand(reply.command));
    }
    let pattern = strings::account();
    let found = match captures(pattern.as_str(), reply.stdout.as_str()) {
        Some(found) => found,
        None => {
            return Err(CliError::RegexError(RegexError::Account, reply.command));
        },
    };
    let date = expires(&found);
    match account_from_captures(reply.command, &found, date) {
        Ok(account) => Ok(Some(account)),
        Err(error) => Err(error),
    }
}

/// What a reply that lists words means: the words, after a process that ended
/// with success; `missing` where there is not one word.
pub open spec fn list_reply(reply: ReplyView, missing: RegexError) -> Result<
    Seq<Seq<char>>,
    CliErrorView,
> {
    if !reply.success {
        Err(CliErrorView::FailedCommand(reply.command))
    } else {
        match word_list(regex_captures_iter(strings::WORD_LIST@, reply.stdout)) {
            Some(list) => Ok(list),
            None => Err(CliErrorView::RegexError(missing, reply.command)),
        }
    }
}

/// What running a command that lists words came to.
pub open spec fn list_outcome(
    run: CommandView,
    spawned: Result<(bool, Seq<u8>), Seq<char>>,
    missing: RegexError,
) -> Result<Seq<Seq<char>>, CliErrorView> {
    match reply_of(run, spawned) {
        Err(error) => Err(error),
        Ok(reply) => list_reply(reply, missing),
    }
}

fn list(run: Command, spawned: Spawned, missing: RegexError) -> (result: CliResult<Vec<String>>)
    ensures
        result_view(result) == list_outcome(run@, spawned_view(spawned), missing),
{
    let reply = match command(run, spawned) {
        Ok(reply) => reply,
        Err(error) => {
            return Err(error);
        },
    };
    if !reply.success {
        return Err(CliError::FailedCommand(reply.command));
    }
    let matches = captures_iter(strings::WORD_LIST, reply.stdout.as_str());
    match list_from_matches(&matches) {
        Some(list) => {
            assert(list.deep_view() =~= texts(list@));
            Ok(list)
        },
        None => Err(CliError::RegexError(missing, reply.command)),
    }
}

/// Reads what `nordvpn cities` came to for `country`: the cities.
pub fn cities(country: &str, spawned: Spawned) -> (result: CliResult<Vec<String>>)
    ensures
        result_view(result) == list_outcome(
            command_line(seq!["cities"@, country@]),
            spawned_view(spawned),
            RegexError::Cities,
        ),
{
    list(NordVPN::cities(country), spawned, RegexError::Cities)
}

/// Reads what `nordvpn countries` came to: the countries.
pub fn countries(spawned: Spawned) -> (result: CliResult<Vec<String>>)
    ensures
        result_view(result) == list_outcome(
            command_line(seq!["countries"@]),
            spawned_view(spawned),
            RegexError::Countries,
        ),
{
    list(NordVPN::countries(), spawned, RegexError::Countries)
}

/// Reads what `nordvpn groups` came to: the groups of servers.
pub fn groups(spawned: Spawned) -> (result: CliResult<Vec<String>>)
    ensures
        result_view(result) == list_outcome(
            command_line(seq!["groups"@]),
            spawned_view(spawned),
            RegexError::Groups,
        ),
{
    list(NordVPN::groups(), spawned, RegexError::Groups)
}

/// The number of a server: a run of ASCII digits that writes a number from 1
/// on that fits in 32 bits.
pub open spec fn server_of(text: Seq<char>) -> Option<u32> {
    if text.len() > 0 && is_digits(text) && 1 <= decimal(text) <= u32::MAX {
        Some(decimal(text) as u32)
    } else {
        None
    }
}

/// The server that the groups of a reply stand for. Country, number and host
/// are all needed, and the number has to be one.
pub open spec fn connected_of(run: CommandView, groups: Map<Seq<char>, Seq<char>>) -> Result<
    ConnectedView,
    CliErrorView,
> {
    if groups.contains_key("country"@) && groups.contains_key("server"@) && groups.contains_key(
        "hostname"@,
    ) && server_of(groups["server"@]) is Some {
        Ok(
            ConnectedView {
                country: groups["country"@],
                server: server_of(groups["server"@])->0,
                hostname: groups["hostname"@],
            },
        )
    } else {
        Err(CliErrorView::RegexError(RegexError::Connect, run))
    }
}

/// What a reply to `connect` means.
pub open spec fn connect_reply(reply: ReplyView) -> Result<ConnectedView, CliErrorView> {
    if !reply.success {
        Err(CliErrorView::FailedCommand(reply.command))
    } else {
        match regex_captures(COUNTRY_SERVER_HOSTNAME@, reply.stdout) {
            None => Err(CliErrorView::RegexError(RegexError::Connect, reply.command)),
            Some(groups) => connected_of(reply.command, groups),
        }
    }
}

/// What running `connect` came to.
pub open spec fn connect_outcome(
    option: Option<&ConnectOption>,
    spawned: Result<(bool, Seq<u8>), Seq<char>>,
) -> Result<ConnectedView, CliErrorView> {
    match reply_of(command_line(seq!["connect"@] + option_args(option)), spawned) {
        Err(error) => Err(error),
        Ok(reply) => connect_reply(reply),
    }
}

fn parse_server(text: &str) -> (server: Option<u32>)
    ensures
        server == server_of(text@),
{
    match parse_decimal(text) {
        Some(n) => if 1 <= n && n <= 0xffff_ffff {
            Some(n as u32)
        } else {
            None
        },
        None => None,
    }
}

/// Makes of the groups of a reply the server that a new connection leads to.
pub fn connected_from_captures(run: Command, captures: &Captures) -> (result: CliResult<Connected>)
    ensures
        result_view(result) == connected_of(run@, captures@),
        result matches Ok(connected) ==> connected.server >= 1,
{
    let country = match captures.name("country") {
        Some(country) => country,
        None => {
            return Err(CliError::RegexError(RegexError::Connect, run));
        },
    };
    let server = match captures.name("server") {
        Some(server) => match parse_server(server.as_str()) {
            Some(server) => server,
            None => {
                return Err(CliError::RegexError(RegexError::Connect, run));
            },
        },
        None => {
            return Err(CliError::RegexError(RegexError::Connect, run));
        },
    };
    let hostname = match captures.name("hostname") {
        Some(hostname) => hostname,
        None => {
            return Err(CliError::RegexError(RegexError::Connect, run));
        },
    };
    Ok(Connected { country, server, hostname })
}

/// Reads what `nordvpn connect` came to, with the option it was run with:
/// the server that the connection leads to.
pub fn connect(option: Option<&ConnectOption>, spawned: Spawned) -> (result: CliResult<Connected>)
    ensures
        result_view(result) == connect_outcome(option, spawned_view(spawned)),
        result matches Ok(connected) ==> connected.server >= 1,
{
    let reply = match command(NordVPN::connect(option), spawned) {
        Ok(reply) => reply,
        Err(error) => {
            return Err(error);
        },
    };
    if !reply.success {
        return Err(CliError::FailedCommand(reply.command));
    }
    match captures(COUNTRY_SERVER_HOSTNAME, reply.stdout.as_str()) {
        Some(found) => connected_from_captures(reply.command, &found),
        None => Err(CliError::RegexError(RegexError::Connect, reply.command)),
    }
}

/// What a reply means that holds one of two sentences, `unchanged` where there
/// was nothing to do and `changed` where it was done. A sentence counts
/// whatever the process ended with; without one, a process that failed gives
/// `FailedCommand` and any other `BadOutput`.
pub open spec fn switch_reply(reply: ReplyView, unchanged: Seq<char>, changed: Seq<char>) -> Result<
    bool,
    CliErrorView,
> {
    if is_substring(unchanged, reply.stdout) {
        Ok(false)
    } else if is_substring(changed, reply.stdout) {
        Ok(true)
    } else if !reply.success {
        Err(CliErrorView::FailedCommand(reply.command))
    } else {
        Err(CliErrorView::BadOutput(reply.command))
    }
}

/// What running a command came to that answers with one of two sentences.
pub open spec fn switch_outcome(
    run: CommandView,
    spawned: Result<(bool, Seq<u8>), Seq<char>>,
    unchanged: Seq<char>,
    changed: Seq<char>,
) -> Result<bool, CliErrorView> {
    match reply_of(run, spawned) {
        Err(error) => Err(error),
        Ok(reply) => switch_reply(reply, unchanged, changed),
    }
}

fn switch(run: Command, spawned: Spawned, unchanged: &str, changed: &str) -> (result: CliResult<bool>)
    ensures
        result_view(result) == switch_outcome(run@, spawned_view(spawned), unchanged@, changed@),
{
    let reply = match command(run, spawned) {
        Ok(reply) => reply,
        Err(error) => {
            return Err(error);
        },
    };
    if contains(reply.stdout.as_str(), unchanged) {
        Ok(false)
    } else if contains(reply.stdout.as_str(), changed) {
        Ok(true)
    } else if !reply.success {
        Err(CliError::FailedCommand(reply.command))
    } else {
        Err(CliError::BadOutput(reply.command))
    }
}

/// Reads what `nordvpn disconnect` came to: whether a connection was ended.
pub fn disconnect(spawned: Spawned) -> (result: CliResult<bool>)
    ensures
        result_view(result) == switch_outcome(
            command_line(seq!["disconnect"@]),
            spawned_view(spawned),
            NOT_CONNECTED@,
            DISCONNECTED_FROM@,
        ),
{
    switch(NordVPN::disconnect(), spawned, NOT_CONNECTED, DISCONNECTED_FROM)
}

/// Reads what `nordvpn logout` came to: whether somebody was logged out.
pub fn logout(spawned: Spawned) -> (result: CliResult<bool>)
    ensures
        result_view(result) == switch_outcome(
            command_line(seq!["logout"@]),
            spawned_view(spawned),
            NOT_LOGGED_IN@,
            LOGGED_OUT@,
        ),
{
    switch(NordVPN::logout(), spawned, NOT_LOGGED_IN, LOGGED_OUT)
}

/// The address at which to log in, as the groups of a reply give it.
pub open spec fn url_of(run: CommandView, groups: Map<Seq<char>, Seq<char>>) -> Result<
    Seq<char>,
    CliErrorView,
> {
    match get(groups, "url"@) {
        Some(url) => Ok(url),
        None => Err(CliErrorView::RegexError(RegexError::Login, run)),
    }
}

/// What a reply to `login` means. Somebody logged in already is no error,
/// whatever the process ended with.
pub open spec fn login_reply(reply: ReplyView) -> Result<Option<Seq<char>>, CliErrorView> {
    if is_substring(ALREADY_LOGGED_IN@, reply.stdout) {
        Ok(None)
    } else if !reply.success {
        Err(CliErrorView::FailedCommand(reply.command))
    } else {
        match regex_captures(strings::login::url_pattern(), reply.stdout) {
            None => Err(CliErrorView::RegexError(RegexError::Login, reply.command)),
            Some(groups) => found(url_of(reply.command, groups)),
        }
    }
}

/// What running `login` came to.
pub open spec fn login_outcome(spawned: Result<(bool, Seq<u8>), Seq<char>>) -> Result<
    Option<Seq<char>>,
    CliErrorView,
> {
    match reply_of(command_line(seq!["login"@]), spawned) {
        Err(error) => Err(error),
        Ok(reply) => login_reply(reply),
    }
}

/// Takes from the groups of a reply the address at which to log in.
pub fn url_from_captures(run: Command, captures: &Captures) -> (result: CliResult<String>)
    ensures
        result_view(result) == url_of(run@, captures@),
{
    match captures.name("url") {
        Some(url) => Ok(url),
        None => Err(CliError::RegexError(RegexError::Login, run)),
    }
}

/// Reads what `nordvpn login` came to: the address at which to go on in a
/// browser, or `None` where somebody is logged in already.
pub fn login(spawned: Spawned) -> (result: CliResult<Option<String>>)
    ensures
        result_view(result) == login_outcome(spawned_view(spawned)),
{
    let reply = match command(NordVPN::login(), spawned) {
        Ok(reply) => reply,
        Err(error) => {
            return Err(error);
        },
    };
    if contains(reply.stdout.as_str(), ALREADY_LOGGED_IN) {
        return Ok(None);
    }
    if !reply.success {
        return Err(CliError::FailedCommand(reply.command));
    }
    let pattern = strings::login::url();
    let found = match captures(pattern.as_str(), reply.stdout.as_str()) {
        Some(found) => found,
        None => {
            return Err(CliError::RegexError(RegexError::Login, reply.command));
        },
    };
    match url_from_captures(reply.command, &found) {
        Ok(url) => Ok(Some(url)),
        Err(error) => Err(error),
    }
}

/// One part of the time that a connection has been up: nothing counts as 0, a
/// run of ASCII digits as its number, and anything else cannot be read.
pub open spec fn component_of(groups: Map<Seq<char>, Seq<char>>, name: Seq<char>) -> Option<nat> {
    match get(groups, name) {
        None => Some(0),
        Some(text) => if text.len() > 0 && is_digits(text) {
            Some(decimal(text))
        } else {
            None
        },
    }
}

/// The time that a connection has been up, as the groups of a reply give it:
/// the sum of its six parts by their weights, in milliseconds, held at
/// `i64::MAX`. Nothing where a part cannot be read.
pub open spec fn uptime_of(groups: Map<Seq<char>, Seq<char>>) -> Option<Duration> {
    let years = component_of(groups, "uptime_years"@);
    let months = component_of(groups, "uptime_months"@);
    let days = component_of(groups, "uptime_days"@);
    let hours = component_of(groups, "uptime_hours"@);
    let minutes = component_of(groups, "uptime_minutes"@);
    let seconds = component_of(groups, "uptime_seconds"@);
    if years is Some && months is Some && days is Some && hours is Some && minutes is Some
        && seconds is Some {
        Some(
            Duration {
                milliseconds: uptime_millis(
                    years->0,
                    months->0,
                    days->0,
                    hours->0,
                    minutes->0,
                    seconds->0,
                ),
            },
        )
    } else {
        None
    }
}

/// A part of a time that may be missing, held at `u64::MAX`.
pub open spec fn capped_component(part: Option<nat>) -> Option<u64> {
    match part {
        Some(n) => Some(capped(n) as u64),
        None => None,
    }
}

fn component(captures: &Captures, name: &str) -> (part: Option<u64>)
    ensures
        part == capped_component(component_of(captures@, name@)),
{
    match captures.name(name) {
        None => Some(0),
        Some(text) => parse_decimal(text.as_str()),
    }
}

/// Reads from the groups of a reply the time that the connection has been up.
pub fn uptime(captures: &Captures) -> (duration: Option<Duration>)
    ensures
        duration == uptime_of(captures@),
{
    let years = match component(captures, "uptime_years") {
        Some(part) => part,
        None => {
            return None;
        },
    };
    let months = match component(captures, "uptime_months") {
        Some(part) => part,
        None => {
            return None;
        },
    };
    let days = match component(captures, "uptime_days") {
        Some(part) => part,
        None => {
            return None;
        },
    };
    let hours = match component(captures, "uptime_hours") {
        Some(part) => part,
        None => {
            return None;
        },
    };
    let minutes = match component(captures, "uptime_minutes") {
        Some(part) => part,
        None => {
            return None;
        },
    };
    let seconds = match component(captures, "uptime_seconds") {
        Some(part) => part,
        None => {
            return None;
        },
    };
    proof {
        let groups = captures@;
        lemma_uptime_capped(
            component_of(groups, "uptime_years"@)->0,
            component_of(groups, "uptime_months"@)->0,
            component_of(groups, "uptime_days"@)->0,
            component_of(groups, "uptime_hours"@)->0,
            component_of(groups, "uptime_minutes"@)->0,
            component_of(groups, "uptime_seconds"@)->0,
        );
    }
    Some(Duration::from_parts(years, months, days, hours, minutes, seconds))
}

/// The quantity of data that the group called `name` gives, where it is there
/// and can be read.
pub open spec fn quantity_of(groups: Map<Seq<char>, Seq<char>>, name: Seq<char>) -> Option<u128> {
    match get(groups, name) {
        Some(text) => byte_unit_parse(text),
        None => None,
    }
}

/// The connection that the groups of a reply stand for, with the two
/// quantities of its transfer as they were read. The first of host, country,
/// city, address, technology, protocol and transfer that is missing or cannot
/// be read gives the error; a time that cannot be read gives the error of the
/// whole reply.
pub open spec fn status_of(
    run: CommandView,
    groups: Map<Seq<char>, Seq<char>>,
    received: Option<u128>,
    sent: Option<u128>,
) -> Result<StatusView, CliErrorView> {
    if !groups.contains_key("hostname"@) {
        Err(CliErrorView::RegexError(RegexError::StatusHostname, run))
    } else if !groups.contains_key("country"@) {
        Err(CliErrorView::RegexError(RegexError::StatusCountry, run))
    } else if !groups.contains_key("city"@) {
        Err(CliErrorView::RegexError(RegexError::StatusCity, run))
    } else if !groups.contains_key("ip"@) || ip_addr_of(groups["ip"@]) is None {
        Err(CliErrorView::RegexError(RegexError::StatusIp, run))
    } else if !groups.contains_key("technology"@) || technology_of(groups["technology"@]) is None {
        Err(CliErrorView::RegexError(RegexError::StatusTechnology, run))
    } else if !groups.contains_key("protocol"@) || protocol_of(groups["protocol"@]) is None {
        Err(CliErrorView::RegexError(RegexError::StatusProtocol, run))
    } else if transfer_of(received, sent) is None {
        Err(CliErrorView::RegexError(RegexError::StatusTransfer, run))
    } else if uptime_of(groups) is None {
        Err(CliErrorView::RegexError(RegexError::Status, run))
    } else {
        Ok(
            StatusView {
                hostname: groups["hostname"@],
                country: groups["country"@],
                city: groups["city"@],
                ip: ip_addr_of(groups["ip"@])->0,
                technology: technology_of(groups["technology"@])->0,
                protocol: protocol_of(groups["protocol"@])->0,
                transfer: transfer_of(received, sent)->0,
                uptime: uptime_of(groups)->0,
            },
        )
    }
}

/// What a reply to `status` means. No connection is no error, whatever the
/// process ended with.
pub open spec fn status_reply(reply: ReplyView) -> Result<Option<StatusView>, CliErrorView> {
    if is_substring(DISCONNECTED@, reply.stdout) {
        Ok(None)
    } else if !reply.success {
        Err(CliErrorView::FailedCommand(reply.command))
    } else {
        match regex_captures(strings::status_pattern(), reply.stdout) {
            None => Err(CliErrorView::RegexError(RegexError::Status, reply.command)),
            Some(groups) => found(
                status_of(
                    reply.command,
                    groups,
                    quantity_of(groups, "transfer_received"@),
                    quantity_of(groups, "transfer_sent"@),
                ),
            ),
        }
    }
}

/// What running `status` came to.
pub open spec fn status_outcome(spawned: Result<(bool, Seq<u8>), Seq<char>>) -> Result<
    Option<StatusView>,
    CliErrorView,
> {
    match reply_of(command_line(seq!["status"@]), spawned) {
        Err(error) => Err(error),
        Ok(reply) => status_reply(reply),
    }
}

/// Reads from the groups of a reply the quantity of data that the group
/// called `name` gives.
pub fn quantity(captures: &Captures, name: &str) -> (bytes: Option<u128>)
    ensures
        bytes == quantity_of(captures@, name@),
{
    match captures.name(name) {
        Some(text) => parse_bytes(text.as_str()),
        None => None,
    }
}

/// Makes the connection of the groups of a reply and of the two quantities
/// that were read from them.
pub fn status_from_captures(
    run: Command,
    captures: &Captures,
    received: Option<u128>,
    sent: Option<u128>,
) -> (result: CliResult<Status>)
    ensures
        result_view(result) == status_of(run@, captures@, received, sent),
{
    let hostname = match captures.name("hostname") {
        Some(hostname) => hostname,
        None => {
            return Err(CliError::RegexError(RegexError::StatusHostname, run));
        },
    };
    let country = match captures.name("country") {
        Some(country) => country,
        None => {
            return Err(CliError::RegexError(RegexError::StatusCountry, run));
        },
    };
    let city = match captures.name("city") {
        Some(city) => city,
        None => {
            return Err(CliError::RegexError(RegexError::StatusCity, run));
        },
    };
    let ip = match captures.name("ip") {
        Some(text) => match IpAddr::parse(text.as_str()) {
            Some(ip) => ip,
            None => {
                return Err(CliError::RegexError(RegexError::StatusIp, run));
            },
        },
        None => {
            return Err(CliError::RegexError(RegexError::StatusIp, run));
        },
    };
    let technology = match captures.name("technology") {
        Some(text) => match Technology::from_str(text.as_str()) {
            Some(technology) => technology,
            None => {
                return Err(CliError::RegexError(RegexError::StatusTechnology, run));
            },
        },
        None => {
            return Err(CliError::RegexError(RegexError::StatusTechnology, run));
        },
    };
    let protocol = match captures.name("protocol") {
        Some(text) => match Protocol::from_str(text.as_str()) {
            Some(protocol) => protocol,
            None => {
                return Err(CliError::RegexError(RegexError::StatusProtocol, run));
            },
        },
        None => {
            return Err(CliError::RegexError(RegexError::StatusProtocol, run));
        },
    };
    let transfer = match Transfer::from_parsed(received, sent) {
        Some(transfer) => transfer,
        None => {
            return Err(CliError::RegexError(RegexError::StatusTransfer, run));
        },
    };
    let uptime = match uptime(captures) {
        Some(uptime) => uptime,
        None => {
            return Err(CliError::RegexError(RegexError::Status, run));
        },
    };
    Ok(Status { hostname, country, city, ip, technology, protocol, transfer, uptime })
}

/// Reads what `nordvpn status` came to: the connection, or `None` where there
/// is none.
pub fn status(spawned: Spawned) -> (result: CliResult<Option<Status>>)
    ensures
        result_view(result) == status_outcome(spawned_view(spawned)),
{
    let reply = match command(NordVPN::status(), spawned) {
        Ok(reply) => reply,
        Err(error) => {
            return Err(error);
        },
    };
    if contains(reply.stdout.as_str(), DISCONNECTED) {
        return Ok(None);
    }
    if !reply.success {
        return Err(CliError::FailedCommand(reply.command));
    }
    let pattern = strings::status();
    let found = match captures(pattern.as_str(), reply.stdout.as_str()) {
        Some(found) => found,
        None => {
            return Err(CliError::RegexError(RegexError::Status, reply.command));
        },
    };
    let received = quantity(&found, "transfer_received");
    let sent = quantity(&found, "transfer_sent");
    match status_from_captures(reply.command, &found, received, sent) {
        Ok(status) => Ok(Some(status)),
        Err(error) => Err(error),
    }
}

/// The parts of the version that the groups of a reply give, where they give
/// one that can be read.
pub open spec fn version_parts_of(groups: Map<Seq<char>, Seq<char>>) -> Option<
    (u64, u64, u64, Seq<char>, Seq<char>),
> {
    match get(groups, "version"@) {
        Some(text) => semver_parse(text),
        None => None,
    }
}

/// The version that was read from a reply; `Version` is the error where none
/// was.
pub open spec fn version_from(
    run: CommandView,
    parts: Option<(u64, u64, u64, Seq<char>, Seq<char>)>,
) -> Result<Version, CliErrorView> {
    match version_of(parts) {
        Some(version) => Ok(version),
        None => Err(CliErrorView::RegexError(RegexError::Version, run)),
    }
}

/// What a reply to `version` means.
pub open spec fn version_reply(reply: ReplyView) -> Result<Version, CliErrorView> {
    if !reply.success {
        Err(CliErrorView::FailedCommand(reply.command))
    } else {
        match regex_captures(strings::version::version_pattern(), reply.stdout) {
            None => Err(CliErrorView::RegexError(RegexError::Version, reply.command)),
            Some(groups) => version_from(reply.command, version_parts_of(groups)),
        }
    }
}

/// What running `version` came to.
pub open spec fn version_outcome(spawned: Result<(bool, Seq<u8>), Seq<char>>) -> Result<
    Version,
    CliErrorView,
> {
    match reply_of(command_line(seq!["version"@]), spawned) {
        Err(error) => Err(error),
        Ok(reply) => version_reply(reply),
    }
}

/// Makes the version of the parts that were read from a reply.
pub fn version_from_parsed(run: Command, parts: Option<(u64, u64, u64, String, String)>) -> (result:
    CliResult<Version>)
    ensures
        result_view(result) == version_from(run@, parts_view(parts)),
{
    match Version::from_parsed(parts) {
        Some(version) => Ok(version),
        None => Err(CliError::RegexError(RegexError::Version, run)),
    }
}

/// Reads what `nordvpn version` came to: the version of the tool.
pub fn version(spawned: Spawned) -> (result: CliResult<Version>)
    ensures
        result_view(result) == version_outcome(spawned_view(spawned)),
{
    let reply = match command(NordVPN::version(), spawned) {
        Ok(reply) => reply,
        Err(error) => {
            return Err(error);
        },
    };
    if !reply.success {
        return Err(CliError::FailedCommand(reply.command));
    }
    let pattern = strings::version::version();
    let found = match captures(pattern.as_str(), reply.stdout.as_str()) {
        Some(found) => found,
        None => {
            return Err(CliError::RegexError(RegexError::Version, reply.command));
        },
    };
    let parts = match found.name("version") {
        Some(text) => parse_version(text.as_str()),
        None => None,
    };
    version_from_parsed(reply.command, parts)
}

} // verus!
