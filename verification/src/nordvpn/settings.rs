use super::cli::{command_line, NordVPN};
use super::command::{
    command, reply_of, result_view, spawned_view, CliError, CliErrorView, CliResult, Command,
    CommandView, Reply, ReplyView, Spawned,
};
use super::re::strings::settings::INVALID_NAME;
use super::re::{is_match, regex_is_match};
use super::values::{
    bool_string, bool_text, lemma_protocol_round_trip, lemma_technology_round_trip, protocol_of,
    protocol_text, technology_of, technology_text, Protocol, Technology,
};
use crate::net::proofs::lemma_ip_round_trip;
use crate::net::{ip_addr_of, ip_text, IpAddr};
use crate::text::{contains, is_substring, texts};
use vstd::prelude::*;
use vstd::string::*;

verus! {

/// What the tool says of values that it does not take for a setting.
pub const INVALID_COMMAND: &'static str = "The command you entered is not valid.";

/// The word that switches a setting off.
pub const OFF: &'static str = "false";

/// The command line that sets `setting` to `values`.
pub open spec fn set_line(setting: Seq<char>, values: Seq<Seq<char>>) -> CommandView {
    command_line(seq!["set"@, setting] + values)
}

/// What a reply to `set` means, where `unknown` says whether the reply holds
/// the sentence for a setting that the tool does not know. In this order:
/// values that the tool does not take, a setting that it does not know, a
/// process that failed; anything else is success.
pub open spec fn set_reply(
    setting: Seq<char>,
    values: Seq<Seq<char>>,
    reply: ReplyView,
    unknown: bool,
) -> Result<(), CliErrorView> {
    if is_substring(INVALID_COMMAND@, reply.stdout) {
        Err(CliErrorView::InvalidSettingValue(setting, values))
    } else if unknown {
        Err(CliErrorView::InvalidSettingName(setting))
    } else if !reply.success {
        Err(CliErrorView::BadOutput(reply.command))
    } else {
        Ok(())
    }
}

/// What running `set` came to.
pub open spec fn set_outcome(
    setting: Seq<char>,
    values: Seq<Seq<char>>,
    spawned: Result<(bool, Seq<u8>), Seq<char>>,
) -> Result<(), CliErrorView> {
    match reply_of(set_line(setting, values), spawned) {
        Err(error) => Err(error),
        Ok(reply) => set_reply(setting, values, reply, regex_is_match(INVALID_NAME@, reply.stdout)),
    }
}

fn copy_texts(items: &Vec<String>) -> (copy: Vec<String>)
    ensures
        texts(copy@) == texts(items@),
{
    let mut copy: Vec<String> = Vec::new();
    let mut i: usize = 0;
    while i < items.len()
        invariant
            i <= items.len(),
            copy.len() == i,
            forall|k: int| 0 <= k < i ==> (#[trigger] copy@[k])@ == items@[k]@,
        decreases items.len() - i,
    {
        copy.push(items[i].clone());
        i += 1;
    }
    assert(texts(copy@) =~= texts(items@));
    copy
}

impl NordVPN {
    /// `set`, the name of the setting, and the values for it.
    pub fn set(setting: &str, values: &Vec<String>) -> (run: Command)
        ensures
            run@ == set_line(setting@, texts(values@)),
    {
        let mut args: Vec<String> = Vec::new();
        args.push(String::from_str("set"));
        args.push(String::from_str(setting));
        let mut i: usize = 0;
        while i < values.len()
            invariant
                i <= values.len(),
                args.len() == i + 2,
                args@[0]@ == "set"@,
                args@[1]@ == setting@,
                forall|k: int| 2 <= k < i + 2 ==> (#[trigger] args@[k])@ == values@[k - 2]@,
            decreases values.len() - i,
        {
            args.push(values[i].clone());
            i += 1;
        }
        assert(texts(args@) =~= seq!["set"@, setting@] + texts(values@));
        NordVPN::command(args)
    }
}

/// Reads a reply to `set`, once it is known whether it holds the sentence
/// for a setting that the tool does not know.
pub fn set_from_reply(setting: &str, values: &Vec<String>, reply: Reply, unknown: bool) -> (result:
    CliResult<()>)
    ensures
        result_view(result) == set_reply(setting@, texts(values@), reply@, unknown),
{
    if contains(reply.stdout.as_str(), INVALID_COMMAND) {
        Err(CliError::InvalidSettingValue(String::from_str(setting), copy_texts(values)))
    } else if unknown {
        Err(CliError::InvalidSettingName(String::from_str(setting)))
    } else if !reply.success {
        Err(CliError::BadOutput(reply.command))
    } else {
        Ok(())
    }
}

/// Reads what `nordvpn set` came to for `setting` and `values`.
pub fn set(setting: &str, values: &Vec<String>, spawned: Spawned) -> (result: CliResult<()>)
    ensures
        result_view(result) == set_outcome(setting@, texts(values@), spawned_view(spawned)),
{
    let reply = match command(NordVPN::set(setting, values), spawned) {
        Ok(reply) => reply,
        Err(error) => {
            return Err(error);
        },
    };
    let unknown = is_match(INVALID_NAME, reply.stdout.as_str());
    set_from_reply(setting, values, reply, unknown)
}

/// One setting of the tool, with the value to give it.
#[derive(Debug, Clone, PartialEq, Eq)]
pub enum Setting {
    Technology(Technology),
    Protocol(Protocol),
    Firewall(bool),
    Killswitch(bool),
    Cybersec(bool),
    Obfuscate(Option<bool>),
    Notify(bool),
    Autoconnect(bool),
    Ipv6(bool),
    Dns(Option<Vec<IpAddr>>),
}

/// What a [`Setting`] holds, as plain values.
pub enum SettingView {
    Technology(Technology),
    Protocol(Protocol),
    Firewall(bool),
    Killswitch(bool),
    Cybersec(bool),
    Obfuscate(Option<bool>),
    Notify(bool),
    Autoconnect(bool),
    Ipv6(bool),
    Dns(Option<Seq<IpAddr>>),
}

/// The view of a list of addresses that may be missing.
pub open spec fn dns_view(dns: Option<Vec<IpAddr>>) -> Option<Seq<IpAddr>> {
    match dns {
        Some(addresses) => Some(addresses@),
        None => None,
    }
}

impl View for Setting {
    type V = SettingView;

    open spec fn view(&self) -> SettingView {
        match self {
            Setting::Technology(technology) => SettingView::Technology(*technology),
            Setting::Protocol(protocol) => SettingView::Protocol(*protocol),
            Setting::Firewall(enabled) => SettingView::Firewall(*enabled),
            Setting::Killswitch(enabled) => SettingView::Killswitch(*enabled),
            Setting::Cybersec(enabled) => SettingView::Cybersec(*enabled),
            Setting::Obfuscate(enabled) => SettingView::Obfuscate(*enabled),
            Setting::Notify(enabled) => SettingView::Notify(*enabled),
            Setting::Autoconnect(enabled) => SettingView::Autoconnect(*enabled),
            Setting::Ipv6(enabled) => SettingView::Ipv6(*enabled),
            Setting::Dns(addresses) => SettingView::Dns(dns_view(*addresses)),
        }
    }
}

impl SettingView {
    /// The name that the tool has for the setting.
    pub open spec fn name(self) -> Seq<char> {
        match self {
            SettingView::Technology(_) => "technology"@,
            SettingView::Protocol(_) => "protocol"@,
            SettingView::Firewall(_) => "firewall"@,
            SettingView::Killswitch(_) => "killswitch"@,
            SettingView::Cybersec(_) => "cybersec"@,
            SettingView::Obfuscate(_) => "obfuscate"@,
            SettingView::Notify(_) => "notify"@,
            SettingView::Autoconnect(_) => "autoconnect"@,
            SettingView::Ipv6(_) => "ipv6"@,
            SettingView::Dns(_) => "dns"@,
        }
    }

    /// The values that say on the command line what to set it to. What can be
    /// left open is switched off where it is.
    pub open spec fn values(self) -> Seq<Seq<char>> {
        match self {
            SettingView::Technology(technology) => seq![technology_text(technology)],
            SettingView::Protocol(protocol) => seq![protocol_text(protocol)],
            SettingView::Firewall(enabled) => seq![bool_text(enabled)],
            SettingView::Killswitch(enabled) => seq![bool_text(enabled)],
            SettingView::Cybersec(enabled) => seq![bool_text(enabled)],
            SettingView::Obfuscate(Some(enabled)) => seq![bool_text(enabled)],
            SettingView::Obfuscate(None) => seq![OFF@],
            SettingView::Notify(enabled) => seq![bool_text(enabled)],
            SettingView::Autoconnect(enabled) => seq![bool_text(enabled)],
            SettingView::Ipv6(enabled) => seq![bool_text(enabled)],
            SettingView::Dns(Some(addresses)) => Seq::new(
                addresses.len(),
                |i: int| ip_text(addresses[i]),
            ),
            SettingView::Dns(None) => seq![OFF@],
        }
    }

    /// The command line that sets it.
    pub open spec fn command(self) -> CommandView {
        set_line(self.name(), self.values())
    }
}

fn one(value: String) -> (values: Vec<String>)
    ensures
        texts(values@) == seq![value@],
{
    let mut values: Vec<String> = Vec::new();
    values.push(value);
    assert(texts(values@) =~= seq![value@]);
    values
}

impl Setting {
    /// The name that the tool has for the setting.
    pub fn name(&self) -> (name: &'static str)
        ensures
            name@ == self@.name(),
    {
        match self {
            Setting::Technology(_) => "technology",
            Setting::Protocol(_) => "protocol",
            Setting::Firewall(_) => "firewall",
            Setting::Killswitch(_) => "killswitch",
            Setting::Cybersec(_) => "cybersec",
            Setting::Obfuscate(_) => "obfuscate",
            Setting::Notify(_) => "notify",
            Setting::Autoconnect(_) => "autoconnect",
            Setting::Ipv6(_) => "ipv6",
            Setting::Dns(_) => "dns",
        }
    }

    /// The values that say on the command line what to set it to.
    pub fn values(&self) -> (values: Vec<String>)
        ensures
            texts(values@) == self@.values(),
    {
        match self {
            Setting::Technology(technology) => one(technology.to_string()),
            Setting::Protocol(protocol) => one(protocol.to_string()),
            Setting::Firewall(enabled) => one(bool_string(*enabled)),
            Setting::Killswitch(enabled) => one(bool_string(*enabled)),
            Setting::Cybersec(enabled) => one(bool_string(*enabled)),
            Setting::Obfuscate(Some(enabled)) => one(bool_string(*enabled)),
            Setting::Obfuscate(None) => one(String::from_str(OFF)),
            Setting::Notify(enabled) => one(bool_string(*enabled)),
            Setting::Autoconnect(enabled) => one(bool_string(*enabled)),
            Setting::Ipv6(enabled) => one(bool_string(*enabled)),
            Setting::Dns(Some(addresses)) => {
                let mut values: Vec<String> = Vec::new();
                let mut i: usize = 0;
                while i < addresses.len()
                    invariant
                        i <= addresses.len(),
                        values.len() == i,
                        forall|k: int| 0 <= k < i ==> (#[trigger] values@[k])@ == ip_text(
                            addresses@[k],
                        ),
                    decreases addresses.len() - i,
                {
                    values.push(addresses[i].to_string());
                    i += 1;
                }
                assert(texts(values@) =~= self@.values());
                values
            },
            Setting::Dns(None) => one(String::from_str(OFF)),
        }
    }

    /// The command line that sets it.
    pub fn command(&self) -> (run: Command)
        ensures
            run@ == self@.command(),
    {
        let values = self.values();
        NordVPN::set(self.name(), &values)
    }
}

/// The settings of the tool, as they were last set from here.
#[derive(Debug, Clone, PartialEq, Eq)]
pub struct Settings {
    pub technology: Technology,
    pub protocol: Protocol,
    pub firewall: bool,
    pub killswitch: bool,
    pub cybersec: bool,
    pub obfuscate: Option<bool>,
    pub notify: bool,
    pub autoconnect: bool,
    pub ipv6: bool,
    pub dns: Option<Vec<IpAddr>>,
}

/// What [`Settings`] hold, as plain values.
pub struct SettingsView {
    pub technology: Technology,
    pub protocol: Protocol,
    pub firewall: bool,
    pub killswitch: bool,
    pub cybersec: bool,
    pub obfuscate: Option<bool>,
    pub notify: bool,
    pub autoconnect: bool,
    pub ipv6: bool,
    pub dns: Option<Seq<IpAddr>>,
}

impl View for Settings {
    type V = SettingsView;

    open spec fn view(&self) -> SettingsView {
        SettingsView {
            technology: self.technology,
            protocol: self.protocol,
            firewall: self.firewall,
            killswitch: self.killswitch,
            cybersec: self.cybersec,
            obfuscate: self.obfuscate,
            notify: self.notify,
            autoconnect: self.autoconnect,
            ipv6: self.ipv6,
            dns: dns_view(self.dns),
        }
    }
}

/// The number of settings that a bulk update applies.
pub const FIELDS: usize = 10;

impl SettingsView {
    /// The settings once `setting` is taken over: its field holds the new
    /// value, and every other field what it held.
    pub open spec fn with(self, setting: SettingView) -> SettingsView {
        match setting {
            SettingView::Technology(technology) => SettingsView { technology, ..self },
            SettingView::Protocol(protocol) => SettingsView { protocol, ..self },
            SettingView::Firewall(firewall) => SettingsView { firewall, ..self },
            SettingView::Killswitch(killswitch) => SettingsView { killswitch, ..self },
            SettingView::Cybersec(cybersec) => SettingsView { cybersec, ..self },
            SettingView::Obfuscate(obfuscate) => SettingsView { obfuscate, ..self },
            SettingView::Notify(notify) => SettingsView { notify, ..self },
            SettingView::Autoconnect(autoconnect) => SettingsView { autoconnect, ..self },
            SettingView::Ipv6(ipv6) => SettingsView { ipv6, ..self },
            SettingView::Dns(dns) => SettingsView { dns, ..self },
        }
    }

    /// The setting that the field at `index` holds, in the order of the
    /// fields; none from [`FIELDS`] on.
    pub open spec fn field(self, index: int) -> Option<SettingView> {
        if index == 0 {
            Some(SettingView::Technology(self.technology))
        } else if index == 1 {
            Some(SettingView::Protocol(self.protocol))
        } else if index == 2 {
            Some(SettingView::Firewall(self.firewall))
        } else if index == 3 {
            Some(SettingView::Killswitch(self.killswitch))
        } else if index == 4 {
            Some(SettingView::Cybersec(self.cybersec))
        } else if index == 5 {
            Some(SettingView::Obfuscate(self.obfuscate))
        } else if index == 6 {
            Some(SettingView::Notify(self.notify))
        } else if index == 7 {
            Some(SettingView::Autoconnect(self.autoconnect))
        } else if index == 8 {
            Some(SettingView::Ipv6(self.ipv6))
        } else if index == 9 {
            Some(SettingView::Dns(self.dns))
        } else {
            None
        }
    }

    /// The command line that applies the field at `index`, if there is one.
    pub open spec fn step(self, index: int) -> Option<CommandView> {
        match self.field(index) {
            Some(setting) => Some(setting.command()),
            None => None,
        }
    }

    /// What one step of a bulk update comes to: the reply to the command for
    /// the field at `index` is read; a failure ends the update, and success
    /// leads to the command for the next field, or to none after the last.
    pub open spec fn update_step(self, index: int, spawned: Result<(bool, Seq<u8>), Seq<char>>) -> Result<
        Option<CommandView>,
        CliErrorView,
    > {
        match self.field(index) {
            None => Ok(None),
            Some(setting) => match set_outcome(setting.name(), setting.values(), spawned) {
                Err(error) => Err(error),
                Ok(_) => Ok(self.step(index + 1)),
            },
        }
    }
}

impl SettingView {
    /// The place of the setting in the order of the fields.
    pub open spec fn index(self) -> int {
        match self {
            SettingView::Technology(_) => 0,
            SettingView::Protocol(_) => 1,
            SettingView::Firewall(_) => 2,
            SettingView::Killswitch(_) => 3,
            SettingView::Cybersec(_) => 4,
            SettingView::Obfuscate(_) => 5,
            SettingView::Notify(_) => 6,
            SettingView::Autoconnect(_) => 7,
            SettingView::Ipv6(_) => 8,
            SettingView::Dns(_) => 9,
        }
    }
}

/// The view of a setting that may be missing.
pub open spec fn setting_view(setting: Option<Setting>) -> Option<SettingView> {
    match setting {
        Some(setting) => Some(setting@),
        None => None,
    }
}

fn copy_addresses(addresses: &Vec<IpAddr>) -> (copy: Vec<IpAddr>)
    ensures
        copy@ == addresses@,
{
    let mut copy: Vec<IpAddr> = Vec::new();
    let mut i: usize = 0;
    while i < addresses.len()
        invariant
            i <= addresses.len(),
            copy@ == addresses@.take(i as int),
        decreases addresses.len() - i,
    {
        copy.push(addresses[i]);
        assert(addresses@.take(i + 1) == addresses@.take(i as int).push(addresses@[i as int]));
        i += 1;
    }
    assert(addresses@.take(addresses.len() as int) == addresses@);
    copy
}

impl Settings {
    /// The setting that the field at `index` holds, in the order of the
    /// fields.
    pub fn field(&self, index: usize) -> (setting: Option<Setting>)
        ensures
            setting_view(setting) == self@.field(index as int),
    {
        if index == 0 {
            Some(Setting::Technology(self.technology))
        } else if index == 1 {
            Some(Setting::Protocol(self.protocol))
        } else if index == 2 {
            Some(Setting::Firewall(self.firewall))
        } else if index == 3 {
            Some(Setting::Killswitch(self.killswitch))
        } else if index == 4 {
            Some(Setting::Cybersec(self.cybersec))
        } else if index == 5 {
            Some(Setting::Obfuscate(self.obfuscate))
        } else if index == 6 {
            Some(Setting::Notify(self.notify))
        } else if index == 7 {
            Some(Setting::Autoconnect(self.autoconnect))
        } else if index == 8 {
            Some(Setting::Ipv6(self.ipv6))
        } else if index == 9 {
            Some(
                Setting::Dns(
                    match &self.dns {
                        Some(addresses) => Some(copy_addresses(addresses)),
                        None => None,
                    },
                ),
            )
        } else {
            None
        }
    }

    /// The command line that applies the field at `index`, if there is one.
    pub fn step(&self, index: usize) -> (run: Option<Command>)
        ensures
            run.deep_view() == self@.step(index as int),
    {
        match self.field(index) {
            Some(setting) => Some(setting.command()),
            None => None,
        }
    }

    fn commit(&mut self, setting: Setting)
        ensures
            final(self)@ == old(self)@.with(setting@),
    {
        let ghost wanted = self@.with(setting@);
        match setting {
            Setting::Technology(technology) => {
                self.technology = technology;
                assert(self@ == wanted);
            },
            Setting::Protocol(protocol) => {
                self.protocol = protocol;
                assert(self@ == wanted);
            },
            Setting::Firewall(enabled) => {
                self.firewall = enabled;
                assert(self@ == wanted);
            },
            Setting::Killswitch(enabled) => {
                self.killswitch = enabled;
                assert(self@ == wanted);
            },
            Setting::Cybersec(enabled) => {
                self.cybersec = enabled;
                assert(self@ == wanted);
            },
            Setting::Obfuscate(enabled) => {
                self.obfuscate = enabled;
                assert(self@ == wanted);
            },
            Setting::Notify(enabled) => {
                self.notify = enabled;
                assert(self@ == wanted);
            },
            Setting::Autoconnect(enabled) => {
                self.autoconnect = enabled;
                assert(self@ == wanted);
            },
            Setting::Ipv6(enabled) => {
                self.ipv6 = enabled;
                assert(self@ == wanted);
            },
            Setting::Dns(addresses) => {
                self.dns = addresses;
                assert(self@ == wanted);
            },
        }
    }

    /// Reads what [`Setting::command`] came to for `setting`, and takes the
    /// setting over where the tool did: after a failure the settings are what
    /// they were.
    pub fn apply(&mut self, setting: Setting, spawned: Spawned) -> (result: CliResult<()>)
        ensures
            result_view(result) == set_outcome(
                setting@.name(),
                setting@.values(),
                spawned_view(spawned),
            ),
            result is Ok ==> final(self)@ == old(self)@.with(setting@),
            result is Err ==> final(self)@ == old(self)@,
    {
        let values = setting.values();
        match set(setting.name(), &values, spawned) {
            Ok(_) => {
                self.commit(setting);
                Ok(())
            },
            Err(error) => Err(error),
        }
    }

    /// Reads the reply to one step of a bulk update, the one for the field at
    /// `index`, and names the command line of the next step. The first
    /// failure ends the update: what was applied before it stays applied by
    /// the tool. The settings themselves are what they were, whatever comes
    /// back, since every step sets what they hold already.
    pub fn update(&mut self, index: usize, spawned: Spawned) -> (result: CliResult<Option<Command>>)
        ensures
            result_view(result) == old(self)@.update_step(index as int, spawned_view(spawned)),
            final(self)@ == old(self)@,
    {
        let setting = match self.field(index) {
            Some(setting) => setting,
            None => {
                return Ok(None);
            },
        };
        match self.apply(setting, spawned) {
            Ok(_) => {
                if index < FIELDS {
                    Ok(self.step(index + 1))
                } else {
                    Ok(None)
                }
            },
            Err(error) => Err(error),
        }
    }

    /// Reads what setting the technology came to, and takes the value over where
    /// the tool did.
    pub fn set_technology(&mut self, technology: Technology, spawned: Spawned) -> (result: CliResult<()>)
        ensures
            result_view(result) == set_outcome(
                "technology"@,
                seq![technology_text(technology)],
                spawned_view(spawned),
            ),
            result is Ok ==> final(self)@ == (SettingsView { technology, ..old(self)@ }),
            result is Err ==> final(self)@ == old(self)@,
    {
        self.apply(Setting::Technology(technology), spawned)
    }

    /// Reads what setting the protocol came to, and takes the value over where
    /// the tool did.
    pub fn set_protocol(&mut self, protocol: Protocol, spawned: Spawned) -> (result: CliResult<()>)
        ensures
            result_view(result) == set_outcome(
                "protocol"@,
                seq![protocol_text(protocol)],
                spawned_view(spawned),
            ),
            result is Ok ==> final(self)@ == (SettingsView { protocol, ..old(self)@ }),
            result is Err ==> final(self)@ == old(self)@,
    {
        self.apply(Setting::Protocol(protocol), spawned)
    }

    /// Reads what setting the firewall came to, and takes the value over where
    /// the tool did.
    pub fn set_firewall(&mut self, enabled: bool, spawned: Spawned) -> (result: CliResult<()>)
        ensures
            result_view(result) == set_outcome(
                "firewall"@,
                seq![bool_text(enabled)],
                spawned_view(spawned),
            ),
            result is Ok ==> final(self)@ == (SettingsView { firewall: enabled, ..old(self)@ }),
            result is Err ==> final(self)@ == old(self)@,
    {
        self.apply(Setting::Firewall(enabled), spawned)
    }

    /// Reads what setting the kill switch came to, and takes the value over where
    /// the tool did.
    pub fn set_killswitch(&mut self, enabled: bool, spawned: Spawned) -> (result: CliResult<()>)
        ensures
            result_view(result) == set_outcome(
                "killswitch"@,
                seq![bool_text(enabled)],
                spawned_view(spawned),
            ),
            result is Ok ==> final(self)@ == (SettingsView { killswitch: enabled, ..old(self)@ }),
            result is Err ==> final(self)@ == old(self)@,
    {
        self.apply(Setting::Killswitch(enabled), spawned)
    }

    /// Reads what setting CyberSec came to, and takes the value over where
    /// the tool did.
    pub fn set_cybersec(&mut self, enabled: bool, spawned: Spawned) -> (result: CliResult<()>)
        ensures
            result_view(result) == set_outcome(
                "cybersec"@,
                seq![bool_text(enabled)],
                spawned_view(spawned),
            ),
            result is Ok ==> final(self)@ == (SettingsView { cybersec: enabled, ..old(self)@ }),
            result is Err ==> final(self)@ == old(self)@,
    {
        self.apply(Setting::Cybersec(enabled), spawned)
    }

    /// Obfuscation left open is switched off.
    pub fn set_obfuscate(&mut self, enabled: Option<bool>, spawned: Spawned) -> (result: CliResult<()>)
        ensures
            result_view(result) == set_outcome(
                "obfuscate"@,
                SettingView::Obfuscate(enabled).values(),
                spawned_view(spawned),
            ),
            result is Ok ==> final(self)@ == (SettingsView { obfuscate: enabled, ..old(self)@ }),
            result is Err ==> final(self)@ == old(self)@,
    {
        self.apply(Setting::Obfuscate(enabled), spawned)
    }

    /// Reads what setting notifications came to, and takes the value over where
    /// the tool did.
    pub fn set_notify(&mut self, enabled: bool, spawned: Spawned) -> (result: CliResult<()>)
        ensures
            result_view(result) == set_outcome(
                "notify"@,
                seq![bool_text(enabled)],
                spawned_view(spawned),
            ),
            result is Ok ==> final(self)@ == (SettingsView { notify: enabled, ..old(self)@ }),
            result is Err ==> final(self)@ == old(self)@,
    {
        self.apply(Setting::Notify(enabled), spawned)
    }

    /// Reads what setting connecting at start came to, and takes the value over where
    /// the tool did.
    pub fn set_autoconnect(&mut self, enabled: bool, spawned: Spawned) -> (result: CliResult<()>)
        ensures
            result_view(result) == set_outcome(
                "autoconnect"@,
                seq![bool_text(enabled)],
                spawned_view(spawned),
            ),
            result is Ok ==> final(self)@ == (SettingsView { autoconnect: enabled, ..old(self)@ }),
            result is Err ==> final(self)@ == old(self)@,
    {
        self.apply(Setting::Autoconnect(enabled), spawned)
    }

    /// Reads what setting IPv6 came to, and takes the value over where
    /// the tool did.
    pub fn set_ipv6(&mut self, enabled: bool, spawned: Spawned) -> (result: CliResult<()>)
        ensures
            result_view(result) == set_outcome(
                "ipv6"@,
                seq![bool_text(enabled)],
                spawned_view(spawned),
            ),
            result is Ok ==> final(self)@ == (SettingsView { ipv6: enabled, ..old(self)@ }),
            result is Err ==> final(self)@ == old(self)@,
    {
        self.apply(Setting::Ipv6(enabled), spawned)
    }

    /// Name servers left open are switched off; else each address is a value.
    pub fn set_dns(&mut self, addresses: Option<Vec<IpAddr>>, spawned: Spawned) -> (result: CliResult<
        (),
    >)
        ensures
            result_view(result) == set_outcome(
                "dns"@,
                SettingView::Dns(dns_view(addresses)).values(),
                spawned_view(spawned),
            ),
            result is Ok ==> final(self)@ == (SettingsView {
                dns: dns_view(addresses),
                ..old(self)@
            }),
            result is Err ==> final(self)@ == old(self)@,
    {
        self.apply(Setting::Dns(addresses), spawned)
    }
}

/// After a setting is taken over, its field holds the value that was set.
pub proof fn lemma_set_then_get(settings: SettingsView, setting: SettingView)
    ensures
        settings.with(setting).field(setting.index()) == Some(setting),
{
}

/// Taking a setting over leaves every other field as it was.
pub proof fn lemma_set_keeps_others(settings: SettingsView, setting: SettingView, index: int)
    requires
        index != setting.index(),
    ensures
        settings.with(setting).field(index) == settings.field(index),
{
}

/// Taking over what a field holds already changes nothing.
pub proof fn lemma_set_same(settings: SettingsView, index: int)
    requires
        settings.field(index) is Some,
    ensures
        settings.with(settings.field(index)->0) == settings,
{
}

/// What stands on the command line for a technology, a protocol or a name
/// server is read back as the value that was set.
pub proof fn lemma_values_read_back(setting: SettingView)
    ensures
        setting matches SettingView::Technology(technology) ==> technology_of(setting.values()[0])
            == Some(technology),
        setting matches SettingView::Protocol(protocol) ==> protocol_of(setting.values()[0])
            == Some(protocol),
        setting matches SettingView::Dns(Some(addresses)) ==> setting.values().len()
            == addresses.len() && forall|i: int|
            0 <= i < addresses.len() ==> ip_addr_of(#[trigger] setting.values()[i]) == Some(
                addresses[i],
            ),
{
    match setting {
        SettingView::Technology(technology) => {
            lemma_technology_round_trip(technology);
        },
        SettingView::Protocol(protocol) => {
            lemma_protocol_round_trip(protocol);
        },
        SettingView::Dns(Some(addresses)) => {
            assert forall|i: int| 0 <= i < addresses.len() implies ip_addr_of(
                #[trigger] setting.values()[i],
            ) == Some(addresses[i]) by {
                lemma_ip_round_trip(addresses[i]);
            }
        },
        _ => {},
    }
}

} // verus!
