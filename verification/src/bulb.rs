//! Device descriptors and the announcements they are read from.

use vstd::prelude::*;
use crate::connection::MAX_BRIGHTNESS;
use crate::headers::number_under;
use crate::headers::Headers;
use crate::lightmode::light_mode_of;
use crate::lightmode::LightMode;
use crate::method::lemma_method_round_trip;
use crate::method::method_name;
use crate::method::method_named;
use crate::method::Method;
use crate::power::power_named;
use crate::power::Power;
use crate::text::chars_of;
use crate::text::concat;
use crate::text::concat_chars;
use crate::text::lemma_split_nonempty;
use crate::text::rows;
use crate::text::split;
use crate::text::split_chars;
use crate::text::text_of;

verus! {

/// What is known of one device: who it is, where it is, what it can do, and
/// the state it announced.
#[derive(Debug)]
pub struct Bulb {
    /// The identifier of the device, which tells devices apart.
    pub id: String,
    /// The product model.
    pub model: String,
    /// The firmware version.
    pub fw_ver: String,
    /// The methods that the device supports, each once.
    pub support: Vec<Method>,
    /// Whether the device is switched on.
    pub power: Power,
    /// Brightness in percent of the maximum.
    pub bright: u8,
    /// How the device produces its light.
    pub color_mode: LightMode,
    /// The name that was stored on the device.
    pub name: String,
    /// Host and port of the control service.
    pub ip_address: String,
}

/// The header name of an announcement line: what stands before its first
/// colon-and-space, or the whole line where it holds none.
pub open spec fn header_key(line: Seq<char>) -> Seq<char> {
    split(line, ": "@)[0]
}

/// The header value of an announcement line: what stands after its first
/// colon-and-space, with every further colon-and-space taken out.
pub open spec fn header_value(line: Seq<char>) -> Seq<char> {
    let pieces = split(line, ": "@);
    concat(pieces.subrange(1, pieces.len() as int))
}

/// The map that a list of announcement lines stands for; of two lines with
/// one name the later counts.
pub open spec fn lines_map(lines: Seq<Seq<char>>) -> Map<Seq<char>, Seq<char>>
    decreases lines.len(),
{
    if lines.len() == 0 {
        Map::empty()
    } else {
        lines_map(lines.drop_last()).insert(header_key(lines.last()), header_value(lines.last()))
    }
}

/// The header block of an announcement, whose lines end in CR LF.
pub open spec fn header_map(text: Seq<char>) -> Map<Seq<char>, Seq<char>> {
    lines_map(split(text, "\r\n"@))
}

/// The methods that a list of words names: each once, in the order in
/// which they are first named. Words that name no method are passed over.
pub open spec fn listed_methods(words: Seq<Seq<char>>) -> Seq<Method>
    decreases words.len(),
{
    if words.len() == 0 {
        Seq::empty()
    } else {
        let before = listed_methods(words.drop_last());
        match method_named(words.last()) {
            Some(method) => if before.contains(method) {
                before
            } else {
                before.push(method)
            },
            None => before,
        }
    }
}

/// The part of a location that follows its first double slash.
pub open spec fn address_of(location: Seq<char>) -> Option<Seq<char>> {
    let pieces = split(location, "//"@);
    if pieces.len() >= 2 {
        Some(pieces[1])
    } else {
        None
    }
}

/// Whether a header block holds all that a descriptor needs.
pub open spec fn complete(map: Map<Seq<char>, Seq<char>>) -> bool {
    &&& map.contains_key("id"@)
    &&& map.contains_key("model"@)
    &&& map.contains_key("fw_ver"@)
    &&& map.contains_key("support"@)
    &&& map.contains_key("power"@) && power_named(map["power"@]) is Some
    &&& number_under(map, "bright"@, MAX_BRIGHTNESS as nat) is Some
    &&& light_mode_of(map) is Some
    &&& map.contains_key("name"@)
    &&& map.contains_key("Location"@) && address_of(map["Location"@]) is Some
}

/// Whether `bulb` is the descriptor that a complete header block gives.
pub open spec fn describes(map: Map<Seq<char>, Seq<char>>, bulb: Bulb) -> bool {
    &&& bulb.id@ == map["id"@]
    &&& bulb.model@ == map["model"@]
    &&& bulb.fw_ver@ == map["fw_ver"@]
    &&& bulb.support@ == listed_methods(split(map["support"@], " "@))
    &&& Some(bulb.power) == power_named(map["power"@])
    &&& Some(bulb.bright as nat) == number_under(map, "bright"@, MAX_BRIGHTNESS as nat)
    &&& Some(bulb.color_mode) == light_mode_of(map)
    &&& bulb.name@ == map["name"@]
    &&& Some(bulb.ip_address@) == address_of(map["Location"@])
}

/// Reads the header block of an announcement.
pub fn parse_to_hashmap(search_response: &str) -> (headers: Headers)
    ensures
        headers@ == header_map(search_response@),
{
    let text = chars_of(search_response);
    let line_end = chars_of("\r\n");
    let colon = chars_of(": ");
    let lines = split_chars(text.as_slice(), line_end.as_slice());
    let mut headers = Headers::new();
    let mut i: usize = 0;
    while i < lines.len()
        invariant
            i <= lines@.len(),
            colon@ == ": "@,
            headers@ == lines_map(rows(lines@).subrange(0, i as int)),
        decreases lines.len() - i,
    {
        let ghost seen = rows(lines@).subrange(0, i + 1);
        assert(seen.drop_last() =~= rows(lines@).subrange(0, i as int));
        assert(seen.last() == lines@[i as int]@);
        let pieces = split_chars(lines[i].as_slice(), colon.as_slice());
        proof {
            lemma_split_nonempty(lines@[i as int]@, colon@, 0);
        }
        let key = pieces[0].clone();
        let value = concat_chars(&pieces, 1);
        assert(key@ == rows(pieces@)[0]);
        headers.put(key, value);
        i += 1;
    }
    assert(rows(lines@).subrange(0, i as int) =~= rows(lines@));
    headers
}

/// Whether `list` holds `method`.
pub fn holds_method(list: &Vec<Method>, method: Method) -> (found: bool)
    ensures
        found == list@.contains(method),
{
    let mut i: usize = 0;
    while i < list.len()
        invariant
            i <= list@.len(),
            forall|k: int| 0 <= k < i ==> list@[k] != method,
        decreases list.len() - i,
    {
        if list[i] == method {
            return true;
        }
        i += 1;
    }
    false
}

/// Reads the methods that a space-separated list names. Words that name no
/// method are passed over, and a method named twice is listed once.
pub fn parse_support(list: &[char]) -> (support: Vec<Method>)
    ensures
        support@ == listed_methods(split(list@, " "@)),
{
    let space = chars_of(" ");
    let words = split_chars(list, space.as_slice());
    let mut support: Vec<Method> = Vec::new();
    let mut i: usize = 0;
    while i < words.len()
        invariant
            i <= words@.len(),
            support@ == listed_methods(rows(words@).subrange(0, i as int)),
        decreases words.len() - i,
    {
        let ghost after = rows(words@).subrange(0, i + 1);
        assert(after.drop_last() =~= rows(words@).subrange(0, i as int));
        assert(after.last() == words@[i as int]@);
        if let Some(method) = Method::parse_chars(words[i].as_slice()) {
            if !holds_method(&support, method) {
                support.push(method);
            }
        }
        i += 1;
    }
    assert(rows(words@).subrange(0, i as int) =~= rows(words@));
    support
}

/// The methods that a list of words names hold no method twice, and hold a
/// method exactly if one of the words is its name.
pub proof fn lemma_listed_methods(words: Seq<Seq<char>>)
    ensures
        listed_methods(words).no_duplicates(),
        forall|method: Method| #[trigger]
            listed_methods(words).contains(method) <==> words.contains(method_name(method)),
    decreases words.len(),
{
    if words.len() > 0 {
        let rest = words.drop_last();
        let before = listed_methods(rest);
        let after = listed_methods(words);
        lemma_listed_methods(rest);
        assert forall|method: Method| #[trigger]
            after.contains(method) <==> words.contains(method_name(method)) by {
            lemma_method_round_trip(method);
            if words.contains(method_name(method)) {
                let k = choose|k: int| 0 <= k < words.len() && words[k] == method_name(method);
                if k < rest.len() {
                    assert(rest[k] == method_name(method));
                    assert(rest.contains(method_name(method)));
                    assert(before.contains(method));
                    let at = choose|at: int| 0 <= at < before.len() && before[at] == method;
                    assert(after[at] == method);
                } else {
                    assert(method_named(words.last()) == Some(method));
                    if !before.contains(method) {
                        assert(after[after.len() - 1] == method);
                    }
                }
            }
            if after.contains(method) {
                let at = choose|at: int| 0 <= at < after.len() && after[at] == method;
                if at < before.len() {
                    assert(before[at] == method);
                    assert(before.contains(method));
                    assert(rest.contains(method_name(method)));
                    let k = choose|k: int| 0 <= k < rest.len() && rest[k] == method_name(method);
                    assert(words[k] == method_name(method));
                } else {
                    assert(method_named(words.last()) == Some(method));
                    assert(crate::method::is_method_name(words.last()));
                    assert(words[words.len() - 1] == method_name(method));
                }
            }
        }
    }
}

impl Bulb {
    /// The set of methods that the device supports.
    pub open spec fn capabilities(&self) -> Set<Method> {
        Set::new(|method: Method| self.support@.contains(method))
    }

    /// Whether the device supports `method`.
    pub fn supports(&self, method: Method) -> (yes: bool)
        ensures
            yes == self.capabilities().contains(method),
    {
        holds_method(&self.support, method)
    }

    /// Reads a descriptor from an announcement. An announcement that lacks
    /// one of the fields of a descriptor, or holds one that cannot be read,
    /// gives none.
    pub fn parse(search_response: &str) -> (bulb: Option<Bulb>)
        ensures
            match bulb {
                Some(b) => complete(header_map(search_response@)) && describes(
                    header_map(search_response@),
                    b,
                ),
                None => !complete(header_map(search_response@)),
            },
    {
        let response_map = parse_to_hashmap(search_response);
        let id = response_map.get("id");
        let model = response_map.get("model");
        let fw_ver = response_map.get("fw_ver");
        let support = match response_map.lookup(chars_of("support").as_slice()) {
            Some(list) => Some(parse_support(list.as_slice())),
            None => None,
        };
        let power = match response_map.get("power") {
            Some(word) => Power::parse(word.as_str()),
            None => None,
        };
        let brightness = response_map.number("bright", MAX_BRIGHTNESS as u64);
        let light_mode = LightMode::parse(&response_map);
        let name = response_map.get("name");
        let ip = match response_map.lookup(chars_of("Location").as_slice()) {
            Some(location) => {
                let slashes = chars_of("//");
                let pieces = split_chars(location.as_slice(), slashes.as_slice());
                if pieces.len() >= 2 {
                    assert(pieces@[1]@ == rows(pieces@)[1]);
                    Some(text_of(pieces[1].as_slice()))
                } else {
                    None
                }
            },
            None => None,
        };
        match (model, id, support, power, brightness, light_mode, fw_ver, name, ip) {
            (
                Some(model),
                Some(id),
                Some(support),
                Some(power),
                Some(brightness),
                Some(light_mode),
                Some(fw_ver),
                Some(name),
                Some(ip),
            ) => Some(
                Bulb {
                    id,
                    model,
                    fw_ver,
                    support,
                    power,
                    bright: brightness as u8,
                    color_mode: light_mode,
                    name,
                    ip_address: ip,
                },
            ),
            _ => None,
        }
    }
}

} // verus!
