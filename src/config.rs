//! Device profiles and rules, as read from the configuration collaborator.
use vstd::prelude::*;
use crate::registry::HidDeviceKey;
use crate::window::{WindowMetadata, WindowMetadataView, pattern_matches};

verus! {

/// A device profile: the identity of one logical HID device and the shape of
/// the reports it takes.
#[derive(Debug, Clone, Default)]
pub struct Device {
    pub name: String,
    pub vid: u16,
    pub pid: u16,
    pub usage_page: u16,
    pub usage: u16,
    /// Length of a report, not counting the leading report id.
    pub report_length: u16,
    pub report_id: u8,
}

impl Device {
    pub open spec fn spec_key(&self) -> HidDeviceKey {
        HidDeviceKey {
            vendor_id: self.vid,
            product_id: self.pid,
            usage_page: self.usage_page,
            usage: self.usage,
        }
    }

    /// The identity under which the registry resolves this device.
    pub fn key(&self) -> (r: HidDeviceKey)
        ensures
            r == self.spec_key(),
    {
        HidDeviceKey {
            vendor_id: self.vid,
            product_id: self.pid,
            usage_page: self.usage_page,
            usage: self.usage,
        }
    }
}

/// What a focus-change rule looks at and what it sends.
#[derive(Debug, Clone, Default)]
pub struct FocusedWindowChangedConfig {
    pub inclusions: Vec<WindowMetadata>,
    pub exclusions: Vec<WindowMetadata>,
    pub on_match_reports: Vec<Vec<u8>>,
    pub on_no_match_reports: Vec<Vec<u8>>,
}

/// The kinds of event a rule can react to.
#[derive(Debug, Clone)]
pub enum Event {
    FocusedWindowChanged(FocusedWindowChangedConfig),
}

/// A rule: an event configuration and the devices its reports go to.
#[derive(Debug, Clone)]
pub struct Rule {
    pub name: String,
    pub event: Event,
    pub devices: Vec<Device>,
}

/// The configuration the core reads: device profiles and rules.
#[derive(Debug, Clone, Default)]
pub struct Config {
    pub devices: Vec<Device>,
    pub rules: Vec<Rule>,
}

pub open spec fn pattern_views(ps: Seq<WindowMetadata>) -> Seq<WindowMetadataView> {
    ps.map_values(|p: WindowMetadata| p@)
}

/// Some pattern of `ps` matches `window`.
pub open spec fn any_pattern_matches(ps: Seq<WindowMetadataView>, window: WindowMetadataView) -> bool {
    exists|i: int| 0 <= i < ps.len() && pattern_matches(#[trigger] ps[i], window)
}

/// The rule outcome: at least one inclusion matches and no exclusion does.
pub open spec fn rule_outcome(
    inclusions: Seq<WindowMetadataView>,
    exclusions: Seq<WindowMetadataView>,
    window: WindowMetadataView,
) -> bool {
    any_pattern_matches(inclusions, window) && !any_pattern_matches(exclusions, window)
}

fn any_match(patterns: &Vec<WindowMetadata>, window: &WindowMetadata) -> (r: bool)
    ensures
        r == any_pattern_matches(pattern_views(patterns@), window@),
{
    let ghost pv = pattern_views(patterns@);
    let mut i: usize = 0;
    while i < patterns.len()
        invariant
            0 <= i <= patterns.len(),
            pv == pattern_views(patterns@),
            forall|k: int| 0 <= k < i ==> !pattern_matches(#[trigger] pv[k], window@),
        decreases patterns.len() - i,
    {
        if window.match_any(&patterns[i]) {
            assert(pattern_matches(pv[i as int], window@));
            return true;
        }
        i += 1;
    }
    false
}

impl FocusedWindowChangedConfig {
    pub open spec fn spec_matches(&self, window: WindowMetadataView) -> bool {
        rule_outcome(pattern_views(self.inclusions@), pattern_views(self.exclusions@), window)
    }

    /// Whether the "match" reports fire for `window`: it matches at least
    /// one inclusion and no exclusion. No inclusions never fire "match"; no
    /// exclusions never block.
    pub fn matches(&self, window: &WindowMetadata) -> (r: bool)
        ensures
            r == self.spec_matches(window@),
    {
        any_match(&self.inclusions, window) && !any_match(&self.exclusions, window)
    }

    /// The report set that fires for `window`.
    pub fn select_reports(&self, window: &WindowMetadata) -> (r: &Vec<Vec<u8>>)
        ensures
            r == (if self.spec_matches(window@) {
                &self.on_match_reports
            } else {
                &self.on_no_match_reports
            }),
    {
        if self.matches(window) {
            &self.on_match_reports
        } else {
            &self.on_no_match_reports
        }
    }
}

/// Some device of `devices` is called `name`.
pub open spec fn has_device_named(devices: Seq<Device>, name: Seq<char>) -> bool {
    exists|i: int| 0 <= i < devices.len() && (#[trigger] devices[i]).name@ == name
}

/// Appends `device` to the configuration unless a device of the same name
/// is already there; says whether it appended.
pub fn append_device(config: &mut Config, device: Device) -> (r: bool)
    ensures
        r == !has_device_named(old(config).devices@, device.name@),
        r ==> final(config).devices@ == old(config).devices@.push(device),
        !r ==> final(config).devices@ == old(config).devices@,
        final(config).rules == old(config).rules,
{
    let mut i: usize = 0;
    while i < config.devices.len()
        invariant
            0 <= i <= config.devices.len(),
            forall|k: int| 0 <= k < i ==> (#[trigger] config.devices@[k]).name@ != device.name@,
        decreases config.devices.len() - i,
    {
        if config.devices[i].name == device.name {
            assert(config.devices@[i as int].name@ == device.name@);
            return false;
        }
        i += 1;
    }
    config.devices.push(device);
    true
}

/// The commented example that heads every configuration file.
pub const CONFIG_TEMPLATE: &'static str = "# Example entry for a device
#
# [[devices]]
# name = \"My Device\"
# vid = 0x1234
# pid = 0x5678
# usage_page = 0x1100
# usage = 0x0011
# report_length = 32
# report_id = 0x00
";

/// The lower-case hexadecimal digit for `d` (taken modulo 16).
pub open spec fn hex_char(d: int) -> char {
    let d = d % 16;
    if d == 0 { '0' } else if d == 1 { '1' } else if d == 2 { '2' } else if d == 3 { '3' }
    else if d == 4 { '4' } else if d == 5 { '5' } else if d == 6 { '6' } else if d == 7 { '7' }
    else if d == 8 { '8' } else if d == 9 { '9' } else if d == 10 { 'a' } else if d == 11 { 'b' }
    else if d == 12 { 'c' } else if d == 13 { 'd' } else if d == 14 { 'e' } else { 'f' }
}

/// `v` in four lower-case hexadecimal digits, most significant first.
pub open spec fn hex4(v: u16) -> Seq<char> {
    seq![hex_char(v as int / 4096), hex_char(v as int / 256), hex_char(v as int / 16), hex_char(v as int)]
}

/// `n` in decimal, without leading zeros.
pub open spec fn decimal(n: nat) -> Seq<char>
    decreases n,
{
    if n < 10 {
        seq![hex_char(n as int)]
    } else {
        decimal(n / 10).push(hex_char((n % 10) as int))
    }
}

/// The text of one device entry.
pub open spec fn device_text(d: Device) -> Seq<char> {
    "\n[[devices]]\nname = \""@ + d.name@ + "\"\nvid = 0x"@ + hex4(d.vid) + "\npid = 0x"@ + hex4(d.pid)
        + "\nusage_page = 0x"@ + hex4(d.usage_page) + "\nusage = 0x"@ + hex4(d.usage)
        + "\nreport_length = "@ + decimal(d.report_length as nat) + "\nreport_id = 0x"@ + hex4(
        d.report_id as u16,
    ) + "\n        "@
}

/// The text of the device entries, in order.
pub open spec fn devices_text(ds: Seq<Device>) -> Seq<char>
    decreases ds.len(),
{
    if ds.len() == 0 {
        Seq::empty()
    } else {
        devices_text(ds.drop_last()) + device_text(ds.last())
    }
}

fn hex_digit(d: u16) -> (r: char)
    ensures
        r == hex_char(d as int),
{
    let d = d % 16;
    if d < 8 {
        if d == 0 { '0' } else if d == 1 { '1' } else if d == 2 { '2' } else if d == 3 { '3' }
        else if d == 4 { '4' } else if d == 5 { '5' } else if d == 6 { '6' } else { '7' }
    } else {
        if d == 8 { '8' } else if d == 9 { '9' } else if d == 10 { 'a' } else if d == 11 { 'b' }
        else if d == 12 { 'c' } else if d == 13 { 'd' } else if d == 14 { 'e' } else { 'f' }
    }
}

fn push_text(out: &mut Vec<char>, s: &str)
    ensures
        final(out)@ == old(out)@ + s@,
{
    let n = s.unicode_len();
    let ghost start = out@;
    let mut i: usize = 0;
    while i < n
        invariant
            n == s@.len(),
            0 <= i <= n,
            out@ == start + s@.take(i as int),
        decreases n - i,
    {
        out.push(s.get_char(i));
        i += 1;
        assert(out@ =~= start + s@.take(i as int));
    }
    assert(s@.take(n as int) =~= s@);
}

fn push_hex4(out: &mut Vec<char>, v: u16)
    ensures
        final(out)@ == old(out)@ + hex4(v),
{
    let ghost start = out@;
    out.push(hex_digit(v / 4096));
    out.push(hex_digit(v / 256));
    out.push(hex_digit(v / 16));
    out.push(hex_digit(v));
    assert(out@ =~= start + hex4(v));
}

fn push_decimal(out: &mut Vec<char>, n: u16)
    ensures
        final(out)@ == old(out)@ + decimal(n as nat),
    decreases n,
{
    let ghost start = out@;
    if n >= 10 {
        push_decimal(out, n / 10);
    }
    out.push(hex_digit(n % 10));
    assert(out@ =~= start + decimal(n as nat));
}

fn push_device(out: &mut Vec<char>, d: &Device)
    ensures
        final(out)@ == old(out)@ + device_text(*d),
{
    let ghost start = out@;
    push_text(out, "\n[[devices]]\nname = \"");
    push_text(out, d.name.as_str());
    push_text(out, "\"\nvid = 0x");
    push_hex4(out, d.vid);
    push_text(out, "\npid = 0x");
    push_hex4(out, d.pid);
    let ghost mid = out@;
    assert(mid =~= start + ("\n[[devices]]\nname = \""@ + d.name@ + "\"\nvid = 0x"@ + hex4(d.vid)
        + "\npid = 0x"@ + hex4(d.pid)));
    push_text(out, "\nusage_page = 0x");
    push_hex4(out, d.usage_page);
    push_text(out, "\nusage = 0x");
    push_hex4(out, d.usage);
    push_text(out, "\nreport_length = ");
    push_decimal(out, d.report_length);
    push_text(out, "\nreport_id = 0x");
    push_hex4(out, d.report_id as u16);
    push_text(out, "\n        ");
    assert(out@ =~= mid + ("\nusage_page = 0x"@ + hex4(d.usage_page) + "\nusage = 0x"@ + hex4(d.usage)
        + "\nreport_length = "@ + decimal(d.report_length as nat) + "\nreport_id = 0x"@ + hex4(
        d.report_id as u16,
    ) + "\n        "@));
    assert(out@ =~= start + device_text(*d));
}

/// Relies on `String`'s `FromIterator<char>`: the string of exactly those
/// characters, in order.
#[verifier::external_body]
fn chars_to_string(chars: &Vec<char>) -> (r: String)
    ensures
        r@ == chars@,
{
    chars.iter().collect()
}

/// The configuration file's text for `config`: the commented template, then
/// one entry per device in order, numbers in four hexadecimal digits except
/// the report length, which is decimal.
pub fn config_to_string(config: &Config) -> (r: String)
    ensures
        r@ == CONFIG_TEMPLATE@ + devices_text(config.devices@),
{
    let mut out: Vec<char> = Vec::new();
    push_text(&mut out, CONFIG_TEMPLATE);
    let ghost head = out@;
    assert(head == CONFIG_TEMPLATE@);
    let mut i: usize = 0;
    assert(config.devices@.take(0) =~= Seq::<Device>::empty());
    assert(out@ =~= head + devices_text(config.devices@.take(0)));
    while i < config.devices.len()
        invariant
            0 <= i <= config.devices.len(),
            head == CONFIG_TEMPLATE@,
            out@ == head + devices_text(config.devices@.take(i as int)),
        decreases config.devices.len() - i,
    {
        push_device(&mut out, &config.devices[i]);
        assert(config.devices@.take(i + 1).drop_last() =~= config.devices@.take(i as int));
        i += 1;
        assert(out@ =~= head + devices_text(config.devices@.take(i as int)));
    }
    assert(config.devices@.take(i as int) =~= config.devices@);
    chars_to_string(&out)
}

} // verus!
