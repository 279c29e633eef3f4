//! Sound cards as the server describes them, and the outcome of the card
//! requests (profile switch, port lookup).

use vstd::prelude::*;

use super::{owned_or_empty, text_or_empty};
use crate::manager::card::{Card, CardStatus, PortInfo, Profile};
use crate::text::{decimal, str_eq, with_decimal};

verus! {

/// Availability of a port, as the server reports it.
#[derive(Clone, Copy, Debug, PartialEq, Eq, Structural)]
pub enum PortAvailable {
    Unknown,
    No,
    Yes,
}

/// A card profile as the server describes it.
#[derive(Clone, Debug)]
pub struct PulseCardProfileInfo {
    pub name: Option<String>,
    pub description: Option<String>,
    pub priority: u32,
    pub available: bool,
}

/// A card port as the server describes it.
#[derive(Clone, Debug)]
pub struct PulseCardPortInfo {
    pub name: Option<String>,
    pub description: Option<String>,
    pub available: PortAvailable,
    /// Whether the port's direction includes output.
    pub output: bool,
    pub profiles: Vec<PulseCardProfileInfo>,
}

/// A card as the server describes it.
#[derive(Clone, Debug)]
pub struct PulseCardInfo {
    pub index: u32,
    pub name: Option<String>,
    pub active_profile: Option<PulseCardProfileInfo>,
    pub ports: Vec<PulseCardPortInfo>,
    pub profiles: Vec<PulseCardProfileInfo>,
}

/// The names of the named profiles among `ps`, in order.
pub open spec fn named_profiles(ps: Seq<PulseCardProfileInfo>) -> Seq<Seq<char>>
    decreases ps.len(),
{
    if ps.len() == 0 {
        Seq::empty()
    } else {
        let rest = named_profiles(ps.drop_last());
        match ps.last().name {
            Some(n) => rest.push(n@),
            None => rest,
        }
    }
}

/// The views of a list of texts.
pub open spec fn texts(v: Seq<String>) -> Seq<Seq<char>> {
    v.map_values(|s: String| s@)
}

/// Whether `r` is the port record built from the server's port `p`.
pub open spec fn port_from_pulse(r: PortInfo, p: PulseCardPortInfo) -> bool {
    &&& r.name@ == text_or_empty(p.name)
    &&& r.enabled == (p.available != PortAvailable::No)
    &&& !r.bluetooth
    &&& r.description@ == text_or_empty(p.description)
    &&& r.direction == (if p.output { 0u32 } else { 1u32 })
    &&& texts(r.profiles@) == named_profiles(p.profiles@)
}

/// Whether `r` is the profile record built from the server's profile `p`.
pub open spec fn profile_from_pulse(r: Profile, p: PulseCardProfileInfo) -> bool {
    &&& r.name@ == text_or_empty(p.name)
    &&& r.description@ == text_or_empty(p.description)
    &&& r.priority == p.priority
    &&& r.available == p.available
}

/// The name of the active profile, empty when there is none.
pub open spec fn active_profile_name(info: PulseCardInfo) -> Seq<char> {
    match info.active_profile {
        Some(p) => text_or_empty(p.name),
        None => Seq::empty(),
    }
}

/// Whether `c` is the card record built from the server's card `info`:
/// a ready card without a status change in progress.
pub open spec fn card_from_pulse(c: Card, info: PulseCardInfo) -> bool {
    &&& c.index == info.index
    &&& c.name@ == text_or_empty(info.name)
    &&& c.active_profile@ == active_profile_name(info)
    &&& c.ports@.len() == info.ports@.len()
    &&& forall|i: int| 0 <= i < info.ports@.len() ==> port_from_pulse(#[trigger] c.ports@[i], info.ports@[i])
    &&& c.profiles@.len() == info.profiles@.len()
    &&& forall|i: int| 0 <= i < info.profiles@.len() ==> profile_from_pulse(#[trigger] c.profiles@[i], info.profiles@[i])
    &&& c.status == CardStatus::Ready
    &&& c.change is None
}

/// The card record keeps what the server says of the card: index, name
/// (empty when absent), active profile name, each port in order with its name,
/// enabled exactly when not reported unavailable, direction 0 for output and
/// 1 for input, and each profile with its name, priority and availability;
/// a freshly described card is ready with no change in progress.
pub proof fn law_card_record_keeps_description(c: Card, info: PulseCardInfo)
    requires
        card_from_pulse(c, info),
    ensures
        c.index == info.index,
        info.name matches Some(n) ==> c.name@ == n@,
        info.name is None ==> c.name@.len() == 0,
        info.active_profile matches Some(p) ==> (p.name matches Some(n) ==> c.active_profile@ == n@),
        info.active_profile is None ==> c.active_profile@.len() == 0,
        c.status == CardStatus::Ready,
        c.change is None,
        c.ports@.len() == info.ports@.len(),
        forall|i: int| 0 <= i < info.ports@.len() ==> {
            &&& (info.ports@[i].name matches Some(n) ==> (#[trigger] c.ports@[i]).name@ == n@)
            &&& c.ports@[i].enabled == (info.ports@[i].available != PortAvailable::No)
            &&& (info.ports@[i].available == PortAvailable::Yes ==> c.ports@[i].enabled)
            &&& (info.ports@[i].output ==> c.ports@[i].direction == 0)
            &&& (!info.ports@[i].output ==> c.ports@[i].direction == 1)
        },
        c.profiles@.len() == info.profiles@.len(),
        forall|i: int| 0 <= i < info.profiles@.len() ==> {
            &&& (info.profiles@[i].name matches Some(n) ==> (#[trigger] c.profiles@[i]).name@ == n@)
            &&& c.profiles@[i].priority == info.profiles@[i].priority
            &&& c.profiles@[i].available == info.profiles@[i].available
        },
{
    assert forall|i: int| 0 <= i < info.ports@.len() implies {
        &&& (info.ports@[i].name matches Some(n) ==> (#[trigger] c.ports@[i]).name@ == n@)
        &&& c.ports@[i].enabled == (info.ports@[i].available != PortAvailable::No)
        &&& (info.ports@[i].available == PortAvailable::Yes ==> c.ports@[i].enabled)
        &&& (info.ports@[i].output ==> c.ports@[i].direction == 0)
        &&& (!info.ports@[i].output ==> c.ports@[i].direction == 1)
    } by {
        assert(port_from_pulse(c.ports@[i], info.ports@[i]));
    }
    assert forall|i: int| 0 <= i < info.profiles@.len() implies {
        &&& (info.profiles@[i].name matches Some(n) ==> (#[trigger] c.profiles@[i]).name@ == n@)
        &&& c.profiles@[i].priority == info.profiles@[i].priority
        &&& c.profiles@[i].available == info.profiles@[i].available
    } by {
        assert(profile_from_pulse(c.profiles@[i], info.profiles@[i]));
    }
}

/// The names of the named profiles of a port.
fn profile_names(ps: &Vec<PulseCardProfileInfo>) -> (r: Vec<String>)
    ensures
        texts(r@) == named_profiles(ps@),
{
    let mut r: Vec<String> = Vec::new();
    for i in 0..ps.len()
        invariant
            texts(r@) == named_profiles(ps@.take(i as int)),
    {
        assert(ps@.take(i + 1).drop_last() == ps@.take(i as int));
        match &ps[i].name {
            Some(n) => {
                r.push(n.clone());
                assert(texts(r@) == texts(r@.drop_last()).push(n@));
            },
            None => {},
        }
    }
    assert(ps@.take(ps@.len() as int) == ps@);
    r
}

/// Builds the port record of a server port.
fn port_from_info(p: &PulseCardPortInfo) -> (r: PortInfo)
    ensures
        port_from_pulse(r, *p),
{
    PortInfo {
        name: owned_or_empty(&p.name),
        enabled: p.available != PortAvailable::No,
        bluetooth: false,
        description: owned_or_empty(&p.description),
        direction: if p.output { 0 } else { 1 },
        profiles: profile_names(&p.profiles),
    }
}

/// Builds the profile record of a server profile.
fn profile_from_info(p: &PulseCardProfileInfo) -> (r: Profile)
    ensures
        profile_from_pulse(r, *p),
{
    Profile {
        name: owned_or_empty(&p.name),
        description: owned_or_empty(&p.description),
        priority: p.priority,
        available: p.available,
    }
}

/// Builds the card record of a server card.
pub fn state_from_info(info: &PulseCardInfo) -> (c: Card)
    ensures
        card_from_pulse(c, *info),
{
    let mut ports: Vec<PortInfo> = Vec::new();
    for i in 0..info.ports.len()
        invariant
            ports@.len() == i,
            forall|j: int| 0 <= j < i ==> port_from_pulse(#[trigger] ports@[j], info.ports@[j]),
    {
        ports.push(port_from_info(&info.ports[i]));
    }
    let mut profiles: Vec<Profile> = Vec::new();
    for i in 0..info.profiles.len()
        invariant
            profiles@.len() == i,
            forall|j: int| 0 <= j < i ==> profile_from_pulse(#[trigger] profiles@[j], info.profiles@[j]),
    {
        profiles.push(profile_from_info(&info.profiles[i]));
    }
    let active_profile = match &info.active_profile {
        Some(p) => owned_or_empty(&p.name),
        None => String::new(),
    };
    Card {
        index: info.index,
        name: owned_or_empty(&info.name),
        active_profile,
        ports,
        profiles,
        status: CardStatus::Ready,
        change: None,
    }
}

/// Error text of a card the server does not know.
pub open spec fn card_not_found_message(index: u32) -> Seq<char> {
    "card "@ + decimal(index as nat) + " not found"@
}

/// The card record from the server's answer to a query for card `index`.
///
/// `reply` is the server's answer: the card, no card, or a failure of the request.
pub fn query_info(index: u32, reply: Result<Option<PulseCardInfo>, String>) -> (r: Result<Card, String>)
    ensures
        match reply {
            Err(e) => r == Err::<Card, String>(e),
            Ok(None) => r matches Err(e) && e@ == card_not_found_message(index),
            Ok(Some(info)) => r matches Ok(c) && card_from_pulse(c, info),
        },
{
    match reply? {
        Some(info) => Ok(state_from_info(&info)),
        None => {
            let mut e = with_decimal("card ", index);
            e.append(" not found");
            Err(e)
        },
    }
}

/// The card records from the server's answer to a query for all cards.
pub fn query_list(reply: Result<Vec<PulseCardInfo>, String>) -> (r: Result<Vec<Card>, String>)
    ensures
        match reply {
            Err(e) => r == Err::<Vec<Card>, String>(e),
            Ok(infos) => r matches Ok(cards) && cards@.len() == infos@.len()
                && forall|i: int| 0 <= i < infos@.len() ==> card_from_pulse(#[trigger] cards@[i], infos@[i]),
        },
{
    let infos = reply?;
    let mut cards: Vec<Card> = Vec::new();
    for i in 0..infos.len()
        invariant
            cards@.len() == i,
            forall|j: int| 0 <= j < i ==> card_from_pulse(#[trigger] cards@[j], infos@[j]),
    {
        cards.push(state_from_info(&infos[i]));
    }
    Ok(cards)
}

/// Error text of a refused profile switch.
pub open spec fn set_profile_failed_message(card_id: u32) -> Seq<char> {
    "set card profile failed for card "@ + decimal(card_id as nat)
}

/// The outcome of switching the profile of card `card_id`.
///
/// `reply` is the server's answer: whether it applied the profile, or a
/// failure of the request.
pub fn set_card_profile(card_id: u32, reply: Result<bool, String>) -> (r: Result<(), String>)
    ensures
        match reply {
            Err(e) => r == Err::<(), String>(e),
            Ok(true) => r is Ok,
            Ok(false) => r matches Err(e) && e@ == set_profile_failed_message(card_id),
        },
{
    let ok = reply?;
    if !ok {
        return Err(with_decimal("set card profile failed for card ", card_id));
    }
    Ok(())
}

/// The index of the first port named `name` among the first `n` ports.
pub open spec fn first_port_named(ports: Seq<PulseCardPortInfo>, name: Seq<char>, n: int) -> Option<int>
    decreases n,
{
    if n <= 0 {
        None
    } else {
        match first_port_named(ports, name, n - 1) {
            Some(i) => Some(i),
            None => if ports[n - 1].name matches Some(pn) && pn@ == name { Some(n - 1) } else { None },
        }
    }
}

/// The profile that enables port `name` of the card: the first profile of the
/// first port of that name, when that profile is named.
pub open spec fn port_profile(info: PulseCardInfo, name: Seq<char>) -> Option<Seq<char>> {
    match first_port_named(info.ports@, name, info.ports@.len() as int) {
        Some(i) => {
            let p = info.ports@[i];
            if p.profiles@.len() > 0 && p.profiles@[0].name is Some {
                Some(p.profiles@[0].name->0@)
            } else {
                None
            }
        },
        None => None,
    }
}

/// Whether port `name` of the card is available (a card without such a port,
/// or no card at all, counts as not available).
pub open spec fn port_available(info: Option<PulseCardInfo>, name: Seq<char>) -> bool {
    match info {
        Some(info) => match first_port_named(info.ports@, name, info.ports@.len() as int) {
            Some(i) => info.ports@[i].available != PortAvailable::No,
            None => false,
        },
        None => false,
    }
}

proof fn lemma_first_port_named_bounds(ports: Seq<PulseCardPortInfo>, name: Seq<char>, n: int)
    requires
        0 <= n <= ports.len(),
    ensures
        first_port_named(ports, name, n) matches Some(i) ==> (0 <= i < n && (ports[i].name matches Some(pn) && pn@ == name)),
    decreases n,
{
    if n > 0 {
        lemma_first_port_named_bounds(ports, name, n - 1);
    }
}

/// Whether port `p` of a card is named `name`.
pub open spec fn port_named(p: PulseCardPortInfo, name: Seq<char>) -> bool {
    p.name matches Some(n) && n@ == name
}

/// Whether `i` is the first port of `ports` named `name`.
pub open spec fn is_first_port_named(ports: Seq<PulseCardPortInfo>, name: Seq<char>, i: int) -> bool {
    &&& 0 <= i < ports.len()
    &&& port_named(ports[i], name)
    &&& forall|j: int| 0 <= j < i ==> !port_named(#[trigger] ports[j], name)
}

proof fn lemma_no_port_named(ports: Seq<PulseCardPortInfo>, name: Seq<char>, m: int)
    requires
        0 <= m <= ports.len(),
        forall|j: int| 0 <= j < m ==> !port_named(#[trigger] ports[j], name),
    ensures
        first_port_named(ports, name, m) is None,
    decreases m,
{
    if m > 0 {
        lemma_no_port_named(ports, name, m - 1);
        assert(!port_named(ports[m - 1], name));
    }
}

proof fn lemma_first_port_named_is(ports: Seq<PulseCardPortInfo>, name: Seq<char>, i: int)
    requires
        is_first_port_named(ports, name, i),
    ensures
        first_port_named(ports, name, ports.len() as int) == Some(i),
{
    lemma_no_port_named(ports, name, i);
    assert(first_port_named(ports, name, i + 1) == Some(i));
    lemma_first_port_named_stable(ports, name, i + 1, ports.len() as int);
}

/// A port is enabled exactly when the server does not report it unavailable:
/// for the first port of the card with that name, availability `Yes` or
/// `Unknown` means enabled and `No` means not; its profile is the first
/// profile it lists, when that profile is named.
pub proof fn law_port_enabled_by_availability(info: PulseCardInfo, name: Seq<char>, i: int)
    requires
        is_first_port_named(info.ports@, name, i),
    ensures
        port_available(Some(info), name) == (info.ports@[i].available != PortAvailable::No),
        info.ports@[i].available == PortAvailable::Yes ==> port_available(Some(info), name),
        info.ports@[i].available == PortAvailable::Unknown ==> port_available(Some(info), name),
        info.ports@[i].available == PortAvailable::No ==> !port_available(Some(info), name),
        port_profile(info, name) == (if info.ports@[i].profiles@.len() > 0 && info.ports@[i].profiles@[0].name is Some {
            Some(info.ports@[i].profiles@[0].name->0@)
        } else {
            None::<Seq<char>>
        }),
{
    lemma_first_port_named_is(info.ports@, name, i);
}

/// A port the card does not have, or a card the server does not know, is
/// not enabled and has no profile.
pub proof fn law_missing_port_not_enabled(info: PulseCardInfo, name: Seq<char>)
    requires
        forall|j: int| 0 <= j < info.ports@.len() ==> !port_named(#[trigger] info.ports@[j], name),
    ensures
        !port_available(Some(info), name),
        port_profile(info, name) is None,
        !port_available(None, name),
{
    lemma_no_port_named(info.ports@, name, info.ports@.len() as int);
}

/// The card record agrees with the port lookup: the record of the first port
/// named `name` has that name and is enabled exactly when the lookup says the
/// port is enabled.
pub proof fn law_card_record_port_enabled(c: Card, info: PulseCardInfo, name: Seq<char>, i: int)
    requires
        card_from_pulse(c, info),
        is_first_port_named(info.ports@, name, i),
    ensures
        c.ports@[i].name@ == name,
        c.ports@[i].enabled == port_available(Some(info), name),
{
    law_port_enabled_by_availability(info, name, i);
    assert(port_from_pulse(c.ports@[i], info.ports@[i]));
}

/// Finds the first port named `name`.
fn find_port(ports: &Vec<PulseCardPortInfo>, name: &str) -> (r: Option<usize>)
    ensures
        r matches Some(i) ==> first_port_named(ports@, name@, ports@.len() as int) == Some(i as int)
            && i < ports@.len(),
        r is None ==> first_port_named(ports@, name@, ports@.len() as int) is None,
{
    for i in 0..ports.len()
        invariant
            first_port_named(ports@, name@, i as int) is None,
    {
        let hit = match &ports[i].name {
            Some(pn) => str_eq(pn.as_str(), name),
            None => false,
        };
        if hit {
            proof {
                lemma_first_port_named_bounds(ports@, name@, i as int);
                lemma_first_port_named_stable(ports@, name@, i as int + 1, ports@.len() as int);
            }
            return Some(i);
        }
    }
    None
}

proof fn lemma_first_port_named_stable(ports: Seq<PulseCardPortInfo>, name: Seq<char>, m: int, n: int)
    requires
        0 <= m <= n,
        first_port_named(ports, name, m) is Some,
    ensures
        first_port_named(ports, name, n) == first_port_named(ports, name, m),
    decreases n - m,
{
    if n > m {
        lemma_first_port_named_stable(ports, name, m, n - 1);
    }
}

/// Error text of a port the card does not have.
pub open spec fn port_not_found_message(card_id: u32, port_name: Seq<char>) -> Seq<char> {
    "port "@ + port_name + " not found on card "@ + decimal(card_id as nat)
}

/// The profile to switch card `card_id` to in order to enable port `port_name`.
///
/// `reply` is the server's answer to a query for the card. A port without a
/// usable profile, or a card the server does not know, is reported as not found.
pub fn profile_for_port(card_id: u32, port_name: &str, reply: Result<Option<PulseCardInfo>, String>) -> (r: Result<String, String>)
    ensures
        match reply {
            Err(e) => r == Err::<String, String>(e),
            Ok(info) => {
                let found = match info {
                    Some(info) => port_profile(info, port_name@),
                    None => None,
                };
                match found {
                    Some(p) => r matches Ok(s) && s@ == p,
                    None => r matches Err(e) && e@ == port_not_found_message(card_id, port_name@),
                }
            },
        },
{
    let info = reply?;
    let found: Option<String> = match &info {
        Some(info) => match find_port(&info.ports, port_name) {
            Some(i) => {
                let p = &info.ports[i];
                if p.profiles.len() > 0 {
                    match &p.profiles[0].name {
                        Some(n) => Some(n.clone()),
                        None => None,
                    }
                } else {
                    None
                }
            },
            None => None,
        },
        None => None,
    };
    match found {
        Some(p) => Ok(p),
        None => {
            let mut e = "port ".to_owned();
            e.append(port_name);
            e.append(" not found on card ");
            let digits = crate::text::u32_to_string(card_id);
            e.append(digits.as_str());
            Err(e)
        },
    }
}

/// Whether port `port_name` is enabled, from the server's answer to a query
/// for its card.
pub fn is_port_enabled(port_name: &str, reply: Result<Option<PulseCardInfo>, String>) -> (r: Result<bool, String>)
    ensures
        match reply {
            Err(e) => r == Err::<bool, String>(e),
            Ok(info) => r == Ok::<bool, String>(port_available(info, port_name@)),
        },
{
    let info = reply?;
    match &info {
        Some(info) => match find_port(&info.ports, port_name) {
            Some(i) => Ok(info.ports[i].available != PortAvailable::No),
            None => Ok(false),
        },
        None => Ok(false),
    }
}

} // verus!
