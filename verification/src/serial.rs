//! Serial numbers of controllers: device fingerprints, the search for an unused
//! serial, and the DNS names derived from it.
use vstd::prelude::*;
use vstd::utf8::encode_utf8;
use vstd::utf8::is_char_boundary;
use vstd::string::StringSliceAdditionalSpecFns;
use crate::text::{
    all_ascii, append_str, ascii_take, ascii_upper, contains, contains_text, first_piece,
    first_piece_of, first_word, first_word_of, has_prefix, hex_prefix, hex_upper, join, joined,
    lemma_hex_upper, lines, lowercase, owned, push_char, remove_char, same_text, second_piece,
    second_piece_of, split_lines, starts_with, strings_view, to_lowercase, to_uppercase, trim,
    trimmed,
};
use crate::outside::{
    chrono_format, chrono_time_in_range, format_utc, is_lower_hex, new_uuid_string, random_byte,
    sha256, sha256_digest,
};

verus! {

/// The public identity of an installed controller.
#[derive(Debug, Clone)]
pub struct SerialInfo {
    pub serial: String,
    pub fingerprint: String,
    pub subdomain: String,
    pub full_domain: String,
    pub created_at: i64,
}

/// Key/value configuration, as `(key, value)` pairs.
pub open spec fn config_view(c: Seq<(String, String)>) -> Seq<(Seq<char>, Seq<char>)> {
    c.map_values(|p: (String, String)| (p.0@, p.1@))
}

/// The value of the first entry with key `key`.
pub open spec fn lookup(c: Seq<(Seq<char>, Seq<char>)>, key: Seq<char>) -> Option<Seq<char>>
    decreases c.len(),
{
    if c.len() == 0 {
        None
    } else if c[0].0 == key {
        Some(c[0].1)
    } else {
        lookup(c.skip(1), key)
    }
}

/// The value configured for `key`, if any.
pub fn config_value(config: &Vec<(String, String)>, key: &str) -> (r: Option<String>)
    ensures
        r matches Some(v) ==> lookup(config_view(config@), key@) == Some(v@),
        r is None ==> lookup(config_view(config@), key@) is None,
{
    let ghost cv = config_view(config@);
    let mut i: usize = 0;
    assert(cv.skip(0) =~= cv);
    while i < config.len()
        invariant
            cv == config_view(config@),
            i <= config@.len(),
            lookup(cv.skip(i as int), key@) == lookup(cv, key@),
        decreases config@.len() - i,
    {
        assert(cv.skip(i as int).skip(1) =~= cv.skip(i + 1));
        assert(cv.skip(i as int)[0] == cv[i as int]);
        if same_text(config[i].0.as_str(), key) {
            return Some(config[i].1.clone());
        }
        i = i + 1;
    }
    None
}

/// The Cloudflare API token: a non-empty configured token, else the trimmed, non-empty
/// contents of the configured token file.
pub open spec fn chosen_api_token(config: Seq<(Seq<char>, Seq<char>)>, token_file: Option<Seq<char>>) -> Option<Seq<char>> {
    match lookup(config, "CLOUDFLARE_API_TOKEN"@) {
        Some(t) if t.len() > 0 => Some(t),
        _ => match token_file {
            Some(c) => if trimmed(c).len() > 0 { Some(trimmed(c)) } else { None },
            None => None,
        },
    }
}

/// The serial printed in `/proc/cpuinfo`: the trimmed text after the first `:` of the
/// first `Serial` line that has one.
pub open spec fn cpu_serial_in(ls: Seq<Seq<char>>) -> Option<Seq<char>>
    decreases ls.len(),
{
    if ls.len() == 0 {
        None
    } else if has_prefix(ls[0], "Serial"@) && second_piece(ls[0], ":"@) is Some {
        Some(trimmed(second_piece(ls[0], ":"@).unwrap()))
    } else {
        cpu_serial_in(ls.skip(1))
    }
}

/// The MAC address in `ip link show` output: the first word after `ether` on the first
/// line that has one, without colons.
pub open spec fn mac_in(ls: Seq<Seq<char>>) -> Option<Seq<char>>
    decreases ls.len(),
{
    if ls.len() == 0 {
        None
    } else if contains_text(ls[0], "ether"@) && first_word(second_piece(ls[0], "ether"@).unwrap()) is Some {
        Some(first_word(second_piece(ls[0], "ether"@).unwrap()).unwrap().filter(|c: char| c != ':'))
    } else {
        mac_in(ls.skip(1))
    }
}

/// The UUID `blkid` reports for the root partition (`mmcblk0p2` or `nvme0n1p2`).
pub open spec fn disk_uuid_in(ls: Seq<Seq<char>>) -> Option<Seq<char>>
    decreases ls.len(),
{
    if ls.len() == 0 {
        None
    } else if (contains_text(ls[0], "mmcblk0p2"@) || contains_text(ls[0], "nvme0n1p2"@))
        && second_piece(ls[0], "UUID=\""@) is Some {
        Some(first_piece(second_piece(ls[0], "UUID=\""@).unwrap(), "\""@))
    } else {
        disk_uuid_in(ls.skip(1))
    }
}

/// The board serial number from the text of `/proc/cpuinfo`.
pub fn cpu_serial(cpuinfo: &str) -> (r: Option<String>)
    ensures
        r matches Some(v) ==> cpu_serial_in(lines(cpuinfo@)) == Some(v@),
        r is None ==> cpu_serial_in(lines(cpuinfo@)) is None,
{
    proof {
        reveal_strlit(":");
    }
    let ls = split_lines(cpuinfo);
    let ghost lv = strings_view(ls@);
    let mut i: usize = 0;
    assert(lv.skip(0) =~= lv);
    while i < ls.len()
        invariant
            lv == strings_view(ls@),
            lv == lines(cpuinfo@),
            i <= ls@.len(),
            cpu_serial_in(lv.skip(i as int)) == cpu_serial_in(lv),
        decreases ls@.len() - i,
    {
        assert(lv.skip(i as int).skip(1) =~= lv.skip(i + 1));
        assert(lv.skip(i as int)[0] == ls@[i as int]@);
        proof {
            reveal_strlit(":");
        }
        if starts_with(ls[i].as_str(), "Serial") {
            match second_piece_of(ls[i].as_str(), ":") {
                Some(p) => {
                    return Some(trim(p.as_str()));
                },
                None => {},
            }
        }
        i = i + 1;
    }
    None
}

/// The MAC address from `ip link show` output.
pub fn mac_address(ip_link: &str) -> (r: Option<String>)
    ensures
        r matches Some(v) ==> mac_in(lines(ip_link@)) == Some(v@),
        r is None ==> mac_in(lines(ip_link@)) is None,
{
    proof {
        reveal_strlit("ether");
    }
    let ls = split_lines(ip_link);
    let ghost lv = strings_view(ls@);
    let mut i: usize = 0;
    assert(lv.skip(0) =~= lv);
    while i < ls.len()
        invariant
            lv == strings_view(ls@),
            lv == lines(ip_link@),
            i <= ls@.len(),
            mac_in(lv.skip(i as int)) == mac_in(lv),
        decreases ls@.len() - i,
    {
        assert(lv.skip(i as int).skip(1) =~= lv.skip(i + 1));
        assert(lv.skip(i as int)[0] == ls@[i as int]@);
        proof {
            reveal_strlit("ether");
        }
        if contains(ls[i].as_str(), "ether") {
            let after = second_piece_of(ls[i].as_str(), "ether");
            match after {
                Some(p) => {
                    match first_word_of(p.as_str()) {
                        Some(w) => {
                            return Some(remove_char(w.as_str(), ':'));
                        },
                        None => {},
                    }
                },
                None => {},
            }
        }
        i = i + 1;
    }
    None
}

/// The root-partition UUID from `blkid` output.
pub fn disk_uuid(blkid: &str) -> (r: Option<String>)
    ensures
        r matches Some(v) ==> disk_uuid_in(lines(blkid@)) == Some(v@),
        r is None ==> disk_uuid_in(lines(blkid@)) is None,
{
    proof {
        reveal_strlit("mmcblk0p2");
        reveal_strlit("nvme0n1p2");
        reveal_strlit("UUID=\"");
        reveal_strlit("\"");
    }
    let ls = split_lines(blkid);
    let ghost lv = strings_view(ls@);
    let mut i: usize = 0;
    assert(lv.skip(0) =~= lv);
    while i < ls.len()
        invariant
            lv == strings_view(ls@),
            lv == lines(blkid@),
            i <= ls@.len(),
            disk_uuid_in(lv.skip(i as int)) == disk_uuid_in(lv),
        decreases ls@.len() - i,
    {
        assert(lv.skip(i as int).skip(1) =~= lv.skip(i + 1));
        assert(lv.skip(i as int)[0] == ls@[i as int]@);
        proof {
            reveal_strlit("mmcblk0p2");
            reveal_strlit("nvme0n1p2");
            reveal_strlit("UUID=\"");
            reveal_strlit("\"");
        }
        if contains(ls[i].as_str(), "mmcblk0p2") || contains(ls[i].as_str(), "nvme0n1p2") {
            match second_piece_of(ls[i].as_str(), "UUID=\"") {
                Some(p) => {
                    return Some(first_piece_of(p.as_str(), "\""));
                },
                None => {},
            }
        }
        i = i + 1;
    }
    None
}

/// `min(8, n)`.
pub open spec fn prefix_cut(n: nat) -> int {
    if n < 8 { n as int } else { 8 }
}

/// The first eight bytes of a disk UUID (`&uuid[..8.min(uuid.len())]`).
pub fn uuid_prefix(uuid: &str) -> (r: String)
    requires
        uuid.spec_bytes().len() <= usize::MAX,
        is_char_boundary(uuid.spec_bytes(), prefix_cut(uuid.spec_bytes().len())),
    ensures
        encode_utf8(r@) == uuid.spec_bytes().take(prefix_cut(uuid.spec_bytes().len())),
{
    let len = uuid.len();
    let cut = if len < 8 { len } else { 8 };
    let (head, _tail) = uuid.split_at(cut);
    let r = owned(head);
    assert(head.spec_bytes() =~= uuid.spec_bytes().take(cut as int));
    r
}

/// The fingerprint of a device from its identifying components: the first eight bytes
/// of the SHA-256 digest of the components joined with `-`, in upper-case hexadecimal.
pub open spec fn fingerprint_of(components: Seq<Seq<char>>) -> Seq<char> {
    hex_upper(sha256_digest(encode_utf8(joined(components, "-"@))).take(8))
}

/// An upper-case hexadecimal digit.
pub open spec fn is_upper_hex(c: char) -> bool {
    ('0' <= c <= '9') || ('A' <= c <= 'F')
}

/// The fingerprint made from a UUID text: its first sixteen characters in upper case.
pub fn fingerprint_of_uuid(u: &str) -> (f: String)
    requires
        all_ascii(u@),
        u@.len() >= 16,
    ensures
        f@ == u@.take(16).map_values(|c: char| ascii_upper(c)),
{
    let head = ascii_take(u, 16);
    assert(all_ascii(head@)) by {
        assert forall|i: int| 0 <= i < head@.len() implies (#[trigger] head@[i] as u32) < 128 by {
            assert(head@[i] == u@[i]);
        }
    }
    let f = to_uppercase(head.as_str());
    f
}

/// The device fingerprint: derived from the components when there are any, otherwise
/// the first sixteen characters of a random UUID in upper case (eight hexadecimal
/// digits, a hyphen, four digits, a hyphen and two digits).
pub fn generate_device_fingerprint(components: &Vec<String>) -> (f: String)
    ensures
        f@.len() == 16,
        all_ascii(f@),
        components@.len() > 0 ==> f@ == fingerprint_of(strings_view(components@)),
        components@.len() == 0 ==> f@[8] == '-' && f@[13] == '-' && forall|i: int|
            0 <= i < 16 && i != 8 && i != 13 ==> is_upper_hex(#[trigger] f@[i]),
{
    if components.len() > 0 {
        let text = join(components, "-");
        let digest = sha256(text.as_str().as_bytes());
        let f = hex_prefix(&digest, 8);
        proof {
            lemma_hex_upper(digest@.take(8));
        }
        f
    } else {
        let u = new_uuid_string();
        assert(all_ascii(u@)) by {
            assert forall|i: int| 0 <= i < u@.len() implies (#[trigger] u@[i] as u32) < 128 by {
                if i == 8 || i == 13 || i == 18 || i == 23 {
                    assert(u@[i] == '-');
                } else {
                    assert(is_lower_hex(u@[i]));
                }
            }
        }
        let f = fingerprint_of_uuid(u.as_str());
        assert(f@[8] == ascii_upper(u@[8]) && u@[8] == '-');
        assert(f@[13] == ascii_upper(u@[13]) && u@[13] == '-');
        assert forall|i: int| 0 <= i < 16 && i != 8 && i != 13 implies is_upper_hex(#[trigger] f@[i]) by {
            assert(f@[i] == ascii_upper(u@[i]));
            assert(is_lower_hex(u@[i]));
        }
        assert(all_ascii(f@)) by {
            assert forall|i: int| 0 <= i < f@.len() implies (#[trigger] f@[i] as u32) < 128 by {
                assert(f@[i] == ascii_upper(u@[i]));
            }
        }
        f
    }
}


/// The character a random byte stands for in a serial: `n % 36` as a digit or an
/// upper-case letter.
pub open spec fn serial_char_of(n: u8) -> char {
    let m = n % 36;
    if m < 10 { crate::text::digit_char(m as int) } else { (m - 10 + 65) as char }
}

/// A digit or an upper-case ASCII letter.
pub open spec fn is_serial_char(c: char) -> bool {
    ('0' <= c <= '9') || ('A' <= c <= 'Z')
}

/// The serial character for `n`.
pub fn serial_char(n: u8) -> (c: char)
    ensures
        c == serial_char_of(n),
        is_serial_char(c),
{
    let m = n % 36;
    if m < 10 {
        crate::text::digit(m as u64)
    } else {
        let c = ((m - 10 + 65) as u8) as char;
        assert(c == (m - 10 + 65) as char);
        c
    }
}

/// What the caller does next while a serial number is chosen.
#[derive(Debug, Clone)]
pub enum SerialAction {
    /// A serial is already assigned to this device: use it.
    UseExisting(String),
    /// Ask whether this serial is registered already, then continue the search.
    CheckAvailability(String),
    /// Save and use this serial.
    Claim(String),
}

/// The progress of a serial search: the attempt number and its candidate.
#[derive(Debug, Clone)]
pub struct SerialSearch {
    attempt: u32,
    candidate: String,
}

impl SerialSearch {
    /// The attempt under way (`0` is the fingerprint-based candidate).
    pub closed spec fn attempt(&self) -> u32 {
        self.attempt
    }

    /// The candidate of the attempt under way.
    pub closed spec fn candidate(&self) -> Seq<char> {
        self.candidate@
    }

    /// The attempt under way.
    pub fn attempt_number(&self) -> (n: u32)
        ensures
            n == self.attempt(),
    {
        self.attempt
    }
}

/// The number of candidates tried before falling back to a time-based serial.
pub const SERIAL_ATTEMPTS: u32 = 10;

/// `c` is a candidate serial of attempt `attempt` for prefix `prefix` and fingerprint `fp`:
/// the prefix and the first eight fingerprint characters, or the prefix and six random
/// digits or upper-case letters.
pub open spec fn is_candidate(prefix: Seq<char>, fp: Seq<char>, attempt: u32, c: Seq<char>) -> bool {
    if attempt == 0 {
        c == prefix + "-"@ + fp.take(8)
    } else {
        &&& c.len() == prefix.len() + 7
        &&& c.take((prefix.len() + 1) as int) == prefix + "-"@
        &&& forall|i: int| prefix.len() + 1 <= i < c.len() ==> is_serial_char(#[trigger] c[i])
    }
}

/// `"nexuscontroller-{serial in lower case}"`.
pub open spec fn subdomain_of(serial: Seq<char>) -> Seq<char> {
    "nexuscontroller-"@ + lowercase(serial)
}

/// Chooses serial numbers for this controller and derives its DNS names.
pub struct SerialManager {
    config: Vec<(String, String)>,
    api_token: Option<String>,
    domain: String,
    device_fingerprint: String,
    registry_url: String,
}

impl SerialManager {
    /// The configuration entries.
    pub closed spec fn config(&self) -> Seq<(Seq<char>, Seq<char>)> {
        config_view(self.config@)
    }

    /// The Cloudflare API token, if one is configured.
    pub closed spec fn api_token(&self) -> Option<Seq<char>> {
        match self.api_token {
            Some(t) => Some(t@),
            None => None,
        }
    }

    /// The DNS domain controllers are registered under.
    pub closed spec fn domain(&self) -> Seq<char> {
        self.domain@
    }

    /// This device's fingerprint.
    pub closed spec fn fingerprint(&self) -> Seq<char> {
        self.device_fingerprint@
    }

    /// The URL of the central serial registry.
    pub closed spec fn registry_url(&self) -> Seq<char> {
        self.registry_url@
    }

    /// The fingerprint is sixteen ASCII characters.
    pub closed spec fn wf(&self) -> bool {
        self.device_fingerprint@.len() == 16 && all_ascii(self.device_fingerprint@)
    }

    /// The serial prefix: `CONTROLLER_SERIAL_PREFIX`, or `ANC`.
    pub open spec fn prefix(&self) -> Seq<char> {
        match lookup(self.config(), "CONTROLLER_SERIAL_PREFIX"@) {
            Some(p) => p,
            None => "ANC"@,
        }
    }

    /// A manager for `config`. `token_file` holds the contents of the file named by
    /// `CLOUDFLARE_API_TOKEN_PATH` when that file exists, and `components` the device's
    /// identifying components (board serial, MAC address, disk UUID prefix).
    pub fn new(config: Vec<(String, String)>, token_file: Option<String>, components: &Vec<String>) -> (m: SerialManager)
        ensures
            m.wf(),
            m.config() == config_view(config@),
            m.api_token() == chosen_api_token(
                config_view(config@),
                match token_file {
                    Some(t) => Some(t@),
                    None => None,
                },
            ),
            m.domain() == match lookup(config_view(config@), "CLOUDFLARE_DOMAIN"@) {
                Some(d) => d,
                None => "automatacontrols.com"@,
            },
            components@.len() > 0 ==> m.fingerprint() == fingerprint_of(strings_view(components@)),
            m.registry_url() == "https://api.automatacontrols.com/serials"@,
    {
        let api_token = Self::get_api_token(&config, &token_file);
        let domain = match config_value(&config, "CLOUDFLARE_DOMAIN") {
            Some(d) => d,
            None => owned("automatacontrols.com"),
        };
        let device_fingerprint = generate_device_fingerprint(components);
        SerialManager {
            config,
            api_token,
            domain,
            device_fingerprint,
            registry_url: owned("https://api.automatacontrols.com/serials"),
        }
    }

    /// The API token: a non-empty configured token, else the trimmed token file if non-empty.
    fn get_api_token(config: &Vec<(String, String)>, token_file: &Option<String>) -> (r: Option<String>)
        ensures
            (match r {
                Some(t) => Some(t@),
                None => None,
            }) == chosen_api_token(
                config_view(config@),
                match *token_file {
                    Some(t) => Some(t@),
                    None => None,
                },
            ),
    {
        match config_value(config, "CLOUDFLARE_API_TOKEN") {
            Some(t) => {
                if !t.as_str().is_empty() {
                    return Some(t);
                }
            },
            None => {},
        }
        match token_file {
            Some(c) => {
                let t = trim(c.as_str());
                if !t.as_str().is_empty() {
                    Some(t)
                } else {
                    None
                }
            },
            None => None,
        }
    }

    /// The serial to reuse: the cached serial if it was saved for this device's
    /// fingerprint, else the trimmed contents of the system serial file.
    pub fn load_existing_serial(&self, cache: Option<(String, String)>, system_file: Option<String>) -> (r: Option<String>)
        ensures
            (match r {
                Some(s) => Some(s@),
                None => None,
            }) == match (cache, system_file) {
                (Some((serial, fp)), _) if fp@ == self.fingerprint() => Some(serial@),
                (_, Some(text)) => Some(trimmed(text@)),
                _ => None,
            },
    {
        match cache {
            Some((serial, fp)) => {
                if same_text(fp.as_str(), self.device_fingerprint.as_str()) {
                    return Some(serial);
                }
            },
            None => {},
        }
        match system_file {
            Some(text) => Some(trim(text.as_str())),
            None => None,
        }
    }

    /// The serial prefix.
    fn serial_prefix(&self) -> (p: String)
        ensures
            p@ == self.prefix(),
    {
        match config_value(&self.config, "CONTROLLER_SERIAL_PREFIX") {
            Some(p) => p,
            None => owned("ANC"),
        }
    }

    /// The candidate serial of attempt `attempt`.
    fn candidate_serial(&self, attempt: u32) -> (c: String)
        requires
            self.wf(),
        ensures
            is_candidate(self.prefix(), self.fingerprint(), attempt, c@),
    {
        let mut c = self.serial_prefix();
        append_str(&mut c, "-");
        proof {
            reveal_strlit("-");
        }
        if attempt == 0 {
            let head = ascii_take(self.device_fingerprint.as_str(), 8);
            append_str(&mut c, head.as_str());
        } else {
            let ghost base = c@;
            let mut k: usize = 0;
            while k < 6
                invariant
                    k <= 6,
                    base == self.prefix() + "-"@,
                    "-"@.len() == 1,
                    c@.len() == base.len() + k,
                    c@.take(base.len() as int) == base,
                    forall|i: int| base.len() <= i < c@.len() ==> is_serial_char(#[trigger] c@[i]),
                decreases 6 - k,
            {
                let ch = serial_char(random_byte());
                let ghost before = c@;
                push_char(&mut c, ch);
                assert(c@.take(base.len() as int) =~= before.take(base.len() as int));
                k = k + 1;
            }
        }
        c
    }

    /// Starts the search for this device's serial. `existing` is what
    /// [`SerialManager::load_existing_serial`] found.
    pub fn begin_serial_search(&self, existing: Option<String>) -> (r: (SerialSearch, SerialAction))
        requires
            self.wf(),
        ensures
            existing matches Some(s) ==> (r.1 matches SerialAction::UseExisting(u) && u@ == s@),
            existing is None ==> r.0.attempt() == 0 && is_candidate(self.prefix(), self.fingerprint(), 0, r.0.candidate())
                && (r.1 matches SerialAction::CheckAvailability(c) && c@ == r.0.candidate()),
    {
        match existing {
            Some(s) => {
                let search = SerialSearch { attempt: SERIAL_ATTEMPTS, candidate: s.clone() };
                (search, SerialAction::UseExisting(s))
            },
            None => {
                let c = self.candidate_serial(0);
                let search = SerialSearch { attempt: 0, candidate: c.clone() };
                (search, SerialAction::CheckAvailability(c))
            },
        }
    }

    /// Continues the search once the registry has answered whether the candidate is
    /// `taken`: a free candidate is claimed; a taken one is followed by the next attempt,
    /// and after the last attempt by a serial made of the prefix and the time `now`
    /// (`%y%m%d%H%M`, UTC).
    pub fn continue_serial_search(&self, search: &mut SerialSearch, taken: bool, now: i64) -> (r: SerialAction)
        requires
            self.wf(),
            old(search).attempt() < SERIAL_ATTEMPTS,
            chrono_time_in_range(now as int),
        ensures
            !taken ==> (r matches SerialAction::Claim(c) && c@ == old(search).candidate()),
            taken && old(search).attempt() + 1 < SERIAL_ATTEMPTS ==> final(search).attempt() == old(search).attempt() + 1
                && is_candidate(self.prefix(), self.fingerprint(), final(search).attempt(), final(search).candidate())
                && (r matches SerialAction::CheckAvailability(c) && c@ == final(search).candidate()),
            taken && old(search).attempt() + 1 == SERIAL_ATTEMPTS ==> (r matches SerialAction::Claim(c)
                && c@ == self.prefix() + "-"@ + chrono_format(now, "%y%m%d%H%M"@)),
    {
        if !taken {
            return SerialAction::Claim(search.candidate.clone());
        }
        let next = search.attempt + 1;
        if next < SERIAL_ATTEMPTS {
            let c = self.candidate_serial(next);
            search.attempt = next;
            search.candidate = c.clone();
            SerialAction::CheckAvailability(c)
        } else {
            search.attempt = next;
            let mut c = self.serial_prefix();
            append_str(&mut c, "-");
            let stamp = format_utc(now, "%y%m%d%H%M");
            append_str(&mut c, stamp.as_str());
            SerialAction::Claim(c)
        }
    }

    /// The Cloudflare query for the zone of the controllers' domain.
    pub fn zones_url(&self) -> (u: String)
        ensures
            u@ == "https://api.cloudflare.com/client/v4/zones?name="@ + self.domain(),
    {
        let mut u = owned("https://api.cloudflare.com/client/v4/zones?name=");
        append_str(&mut u, self.domain.as_str());
        u
    }

    /// The Cloudflare query for the DNS records of `serial` in zone `zone_id`.
    pub fn dns_records_url(&self, zone_id: &str, serial: &str) -> (u: String)
        ensures
            u@ == "https://api.cloudflare.com/client/v4/zones/"@ + zone_id@ + "/dns_records?name="@
                + subdomain_of(serial@) + "."@ + self.domain(),
    {
        let mut u = owned("https://api.cloudflare.com/client/v4/zones/");
        append_str(&mut u, zone_id);
        append_str(&mut u, "/dns_records?name=");
        let sub = subdomain(serial);
        append_str(&mut u, sub.as_str());
        append_str(&mut u, ".");
        append_str(&mut u, self.domain.as_str());
        u
    }

    /// The identity of this controller once `serial` is chosen, created at `now`.
    pub fn get_serial_info(&self, serial: &str, now: i64) -> (info: SerialInfo)
        ensures
            info.serial@ == serial@,
            info.fingerprint@ == self.fingerprint(),
            info.subdomain@ == subdomain_of(serial@),
            info.full_domain@ == subdomain_of(serial@) + "."@ + self.domain(),
            info.created_at == now,
    {
        let sub = subdomain(serial);
        let mut full = sub.clone();
        append_str(&mut full, ".");
        append_str(&mut full, self.domain.as_str());
        SerialInfo {
            serial: owned(serial),
            fingerprint: self.device_fingerprint.clone(),
            subdomain: sub,
            full_domain: full,
            created_at: now,
        }
    }

    /// The metadata sent with the registration of `info`.
    pub fn registration_metadata(&self, info: &SerialInfo) -> (m: Vec<(String, String)>)
        ensures
            config_view(m@) == seq![("subdomain"@, info.subdomain@), ("domain"@, self.domain())],
    {
        let mut m: Vec<(String, String)> = Vec::new();
        m.push((owned("subdomain"), info.subdomain.clone()));
        m.push((owned("domain"), self.domain.clone()));
        assert(config_view(m@) =~= seq![("subdomain"@, info.subdomain@), ("domain"@, self.domain())]);
        m
    }

    /// The device fingerprint.
    pub fn device_fingerprint(&self) -> (f: String)
        ensures
            f@ == self.fingerprint(),
    {
        self.device_fingerprint.clone()
    }

    /// The controllers' DNS domain.
    pub fn domain_name(&self) -> (d: String)
        ensures
            d@ == self.domain(),
    {
        self.domain.clone()
    }

    /// The Cloudflare API token, if any.
    pub fn cloudflare_token(&self) -> (t: Option<String>)
        ensures
            (match t {
                Some(x) => Some(x@),
                None => None,
            }) == self.api_token(),
    {
        match &self.api_token {
            Some(t) => Some(t.clone()),
            None => None,
        }
    }

    /// The URL of the central serial registry.
    pub fn registry(&self) -> (u: String)
        ensures
            u@ == self.registry_url(),
    {
        self.registry_url.clone()
    }
}

/// `"nexuscontroller-{serial in lower case}"`.
pub fn subdomain(serial: &str) -> (s: String)
    ensures
        s@ == subdomain_of(serial@),
{
    let mut s = owned("nexuscontroller-");
    let low = to_lowercase(serial);
    append_str(&mut s, low.as_str());
    s
}

/// A character of a UUID as `blkid` writes it: a hexadecimal digit or a hyphen.
pub open spec fn is_uuid_char(c: char) -> bool {
    ('0' <= c <= '9') || ('a' <= c <= 'f') || ('A' <= c <= 'F') || c == '-'
}

/// A pattern found inside a prefix is found in the whole text.
proof fn lemma_contains_in_prefix(a: Seq<char>, b: Seq<char>, p: Seq<char>)
    requires
        crate::text::contains_text(a, p),
    ensures
        crate::text::contains_text(a + b, p),
{
    let i = choose|i: int| crate::text::occurs_at(a, p, i);
    assert((a + b).subrange(i, i + p.len()) =~= a.subrange(i, i + p.len()));
    assert(crate::text::occurs_at(a + b, p, i));
}

/// In `u + "\"" + w`, with no quote in `u`, the text before the first quote is `u`.
proof fn lemma_first_piece_before_quote(x: Seq<char>, u: Seq<char>)
    requires
        x.len() > u.len(),
        x.take(u.len() as int) == u,
        x[u.len() as int] == '"',
        forall|i: int| 0 <= i < u.len() ==> #[trigger] u[i] != '"',
    ensures
        first_piece(x, "\""@) == u,
{
    reveal_strlit("\"");
    let q = "\""@;
    assert(x.subrange(u.len() as int, u.len() as int + 1) =~= q);
    assert forall|j: int| 0 <= j < u.len() implies !crate::text::occurs_at(x, q, j) by {
        assert(x[j] == u[j]);
        if crate::text::occurs_at(x, q, j) {
            assert(x.subrange(j, j + 1)[0] == q[0]);
        }
    }
    assert(crate::text::is_first_occurrence(x, q, u.len() as int));
    crate::text::lemma_first_occurrence_unique(x, q, u.len() as int);
    assert(x.take(u.len() as int) =~= u);
}

/// Lines that mention neither root partition are passed over.
proof fn lemma_disk_uuid_skips(ls: Seq<Seq<char>>, k: int)
    requires
        0 <= k <= ls.len(),
        forall|j: int| 0 <= j < k ==> !contains_text(#[trigger] ls[j], "mmcblk0p2"@)
            && !contains_text(ls[j], "nvme0n1p2"@),
    ensures
        disk_uuid_in(ls) == disk_uuid_in(ls.skip(k)),
    decreases k,
{
    if k == 0 {
        assert(ls.skip(0) =~= ls);
    } else {
        assert(!contains_text(ls[0], "mmcblk0p2"@) && !contains_text(ls[0], "nvme0n1p2"@));
        let t = ls.skip(1);
        assert(disk_uuid_in(ls) == disk_uuid_in(t));
        assert forall|j: int| 0 <= j < k - 1 implies !contains_text(#[trigger] t[j], "mmcblk0p2"@)
            && !contains_text(t[j], "nvme0n1p2"@) by {
            assert(t[j] == ls[j + 1]);
        }
        lemma_disk_uuid_skips(t, k - 1);
        assert(t.skip(k - 1) =~= ls.skip(k));
    }
}

/// `UUID="` does not start inside a prefix free of it and run into an appended `UUID="`.
proof fn lemma_no_early_uuid_key(pre: Seq<char>, rest: Seq<char>, j: int)
    requires
        !contains_text(pre, "UUID=\""@),
        0 <= j < pre.len(),
    ensures
        !crate::text::occurs_at(pre + "UUID=\""@ + rest, "UUID=\""@, j),
{
    reveal_strlit("UUID=\"");
    let p = "UUID=\""@;
    let l = pre + p + rest;
    let n = pre.len() as int;
    if crate::text::occurs_at(l, p, j) {
        let w = l.subrange(j, j + 6);
        if j + 6 <= n {
            assert(w =~= pre.subrange(j, j + 6));
            assert(crate::text::occurs_at(pre, p, j));
        } else {
            let t = n - j;
            assert(w[t] == l[n]);
            assert(l[n] == p[0]);
            assert(w[t] == p[t]);
            assert(p[0] == 'U' && p[2] == 'I' && p[3] == 'D' && p[4] == '=' && p[5] == '"');
            assert(t == 1);
            assert(w[2] == l[n + 1]);
            assert(l[n + 1] == p[1]);
            assert(w[2] == p[2]);
        }
    }
}

/// After a prefix without `UUID="`, the field split off by the first `UUID="` is the
/// text after it, up to the next `UUID="`.
proof fn lemma_uuid_field(pre: Seq<char>, rest: Seq<char>)
    requires
        !contains_text(pre, "UUID=\""@),
    ensures
        second_piece(pre + "UUID=\""@ + rest, "UUID=\""@) == Some(first_piece(rest, "UUID=\""@)),
{
    reveal_strlit("UUID=\"");
    let p = "UUID=\""@;
    let l = pre + p + rest;
    let n = pre.len() as int;
    assert(l.subrange(n, n + 6) =~= p);
    assert forall|j: int| 0 <= j < n implies !crate::text::occurs_at(l, p, j) by {
        lemma_no_early_uuid_key(pre, rest, j);
    }
    assert(crate::text::is_first_occurrence(l, p, n));
    crate::text::lemma_first_occurrence_unique(l, p, n);
    assert(l.skip(n + 6) =~= rest);
}

/// A UUID followed by a closing quote is read back whole from the field.
proof fn lemma_uuid_value(u: Seq<char>, post: Seq<char>)
    requires
        forall|i: int| 0 <= i < u.len() ==> is_uuid_char(#[trigger] u[i]),
    ensures
        first_piece(first_piece(u + "\""@ + post, "UUID=\""@), "\""@) == u,
{
    reveal_strlit("UUID=\"");
    reveal_strlit("\"");
    let p = "UUID=\""@;
    let q = "\""@;
    let r = u + q + post;
    assert(p[0] == 'U');
    assert(r[u.len() as int] == '"');
    assert forall|j: int| 0 <= j <= u.len() implies !crate::text::occurs_at(r, p, j) by {
        if crate::text::occurs_at(r, p, j) {
            assert(r.subrange(j, j + 6)[0] == p[0]);
            if j < u.len() {
                assert(r[j] == u[j]);
                assert(is_uuid_char(u[j]));
            }
        }
    }
    let x = first_piece(r, p);
    if contains_text(r, p) {
        let w = choose|i: int| crate::text::occurs_at(r, p, i);
        crate::text::lemma_first_occurrence(r, p, w);
        let f = crate::text::first_occurrence(r, p);
        assert(f > u.len());
        assert(x == r.take(f));
    }
    assert(x.len() > u.len());
    assert(x.take(u.len() as int) =~= u);
    assert(x[u.len() as int] == '"');
    assert forall|i: int| 0 <= i < u.len() implies #[trigger] u[i] != '"' by {
        assert(is_uuid_char(u[i]));
    }
    lemma_first_piece_before_quote(x, u);
}

/// Law: the disk UUID is the UUID of the first line that names the root partition, on
/// an SD card (`mmcblk0p2`) or an NVMe drive (`nvme0n1p2`) alike. When no earlier line
/// mentions either partition and line `k` is `pre`, then `UUID="`, the UUID `u`, a
/// closing quote and anything after, where `pre` names one of the two partitions and
/// holds no `UUID="`, the disk UUID is `u`.
pub proof fn law_disk_uuid_of_root_line(
    ls: Seq<Seq<char>>,
    k: int,
    pre: Seq<char>,
    u: Seq<char>,
    post: Seq<char>,
)
    requires
        0 <= k < ls.len(),
        forall|j: int| 0 <= j < k ==> !contains_text(#[trigger] ls[j], "mmcblk0p2"@)
            && !contains_text(ls[j], "nvme0n1p2"@),
        ls[k] == pre + "UUID=\""@ + u + "\""@ + post,
        contains_text(pre, "mmcblk0p2"@) || contains_text(pre, "nvme0n1p2"@),
        !contains_text(pre, "UUID=\""@),
        forall|i: int| 0 <= i < u.len() ==> is_uuid_char(#[trigger] u[i]),
    ensures
        disk_uuid_in(ls) == Some(u),
{
    let p = "UUID=\""@;
    let q = "\""@;
    let rest = u + q + post;
    assert(pre + p + u + q + post =~= pre + p + rest);
    lemma_uuid_field(pre, rest);
    lemma_uuid_value(u, post);
    assert(pre + p + rest =~= pre + (p + rest));
    if contains_text(pre, "mmcblk0p2"@) {
        lemma_contains_in_prefix(pre, p + rest, "mmcblk0p2"@);
    } else {
        lemma_contains_in_prefix(pre, p + rest, "nvme0n1p2"@);
    }
    lemma_disk_uuid_skips(ls, k);
    assert(ls.skip(k)[0] == ls[k]);
}

} // verus!
