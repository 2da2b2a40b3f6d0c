//! Network interfaces: their names, and the addresses shown in turn.

use vstd::prelude::*;
use vstd::string::*;

verus! {

/// Whether the only `.` of `name` is at index `d`.
pub open spec fn sole_dot(name: Seq<char>, d: int) -> bool {
    &&& 0 <= d < name.len()
    &&& name[d] == '.'
    &&& forall|k: int| 0 <= k < name.len() && name[k] == '.' ==> k == d
}

/// The two parts of an interface name with its only `.` at index `d >= 1`:
/// the VLAN part runs from the character before the dot to the end, and the
/// physical part is what stands before that character, or that single
/// character where nothing stands before it.
pub open spec fn split_at_dot(name: Seq<char>, d: int) -> (Seq<char>, Seq<char>) {
    (
        if d > 1 {
            name.take(d - 1)
        } else {
            name.take(d)
        },
        name.skip(d - 1),
    )
}

/// Splits the name of a VLAN interface such as `eth0.99` into the physical
/// part `eth` and the VLAN part `0.99`. A name that does not hold exactly one
/// `.`, or that starts with it, is handed back whole with an empty VLAN part.
pub fn split_interface(interface: &str) -> (parts: (String, String))
    ensures
        forall|d: int|
            #[trigger] sole_dot(interface@, d) && d >= 1 ==> (parts.0@, parts.1@) == split_at_dot(interface@, d),
        !(exists|d: int| #[trigger] sole_dot(interface@, d) && d >= 1) ==> parts.0@ == interface@
            && parts.1@ == Seq::<char>::empty(),
{
    let n: usize = interface.unicode_len();
    let mut dots: u8 = 0;
    let mut first: usize = 0;
    let ghost mut second: int = 0;
    let mut i: usize = 0;
    for c in it: interface.chars()
        invariant
            it.seq() == interface@,
            i == it.index(),
            n == interface@.len(),
            dots <= 2,
            dots == 0 ==> forall|k: int| 0 <= k < i ==> interface@[k] != '.',
            dots >= 1 ==> first < i && interface@[first as int] == '.' && forall|k: int|
                0 <= k < first ==> interface@[k] != '.',
            dots == 1 ==> forall|k: int| first < k < i ==> interface@[k] != '.',
            dots == 2 ==> first < second < i && interface@[second] == '.',
    {
        if c == '.' {
            if dots == 0 {
                first = i;
                dots = 1;
            } else {
                proof {
                    if dots == 1 {
                        second = i as int;
                    }
                }
                dots = 2;
            }
        }
        i += 1;
    }
    if dots == 1 && first >= 1 {
        proof {
            assert(sole_dot(interface@, first as int));
        }
        let vlan = String::from_str(interface.substring_char(first - 1, n));
        let phys = if first > 1 {
            String::from_str(interface.substring_char(0, first - 1))
        } else {
            String::from_str(interface.substring_char(0, first))
        };
        proof {
            assert(interface@.subrange(first - 1, n as int) =~= interface@.skip(first - 1));
            assert(interface@.subrange(0, first - 1) =~= interface@.take(first - 1));
            assert(interface@.subrange(0, first as int) =~= interface@.take(first as int));
        }
        (phys, vlan)
    } else {
        proof {
            assert forall|d: int| #[trigger] sole_dot(interface@, d) && d >= 1 implies false by {
                if dots == 2 {
                    assert(interface@[first as int] == '.');
                    assert(interface@[second] == '.');
                }
            }
        }
        (String::from_str(interface), String::new())
    }
}

/// An address as contracts see it: the interface, the address in dotted
/// form, and its four octets.
pub struct AddressModel {
    pub interface: Seq<char>,
    pub ip: Seq<char>,
    pub octets: Seq<u8>,
}

/// The model of an address record.
pub open spec fn address_model(a: (String, String, [u8; 4])) -> AddressModel {
    AddressModel { interface: a.0@, ip: a.1@, octets: a.2@ }
}

/// The record that stands in where no interface has an address.
pub open spec fn no_interface() -> AddressModel {
    AddressModel { interface: "NoInterface"@, ip: "0.0.0.0"@, octets: seq![0u8, 0u8, 0u8, 0u8] }
}

/// The addresses found at the last scan of the interfaces, and whose turn it
/// is to be shown.
pub struct InterfaceCache {
    addresses: Vec<(String, String, [u8; 4])>,
    index: usize,
    last_refresh: u64,
    refresh_interval: u64,
    checks: u32,
    forced_every: u32,
}

/// A cache as contracts see it.
pub struct CacheModel {
    /// The addresses of the last scan, in the order found.
    pub addresses: Seq<AddressModel>,
    /// The address that is shown next.
    pub index: nat,
    /// When the last scan was made, in seconds on the clock of the caller.
    pub last_refresh: nat,
    /// After how many seconds a scan is stale.
    pub refresh_interval: nat,
    /// How many checks were made since the cache was last emptied by force.
    pub checks: nat,
    /// After how many checks the cache is emptied by force.
    pub forced_every: nat,
}

impl View for InterfaceCache {
    type V = CacheModel;

    closed spec fn view(&self) -> CacheModel {
        CacheModel {
            addresses: self.addresses@.map_values(|a: (String, String, [u8; 4])| address_model(a)),
            index: self.index as nat,
            last_refresh: self.last_refresh as nat,
            refresh_interval: self.refresh_interval as nat,
            checks: self.checks as nat,
            forced_every: self.forced_every as nat,
        }
    }
}

impl CacheModel {
    /// Whether the interfaces have to be scanned again at time `now`: nothing
    /// is known, or what is known is stale.
    pub open spec fn stale(self, now: nat) -> bool {
        self.addresses.len() == 0 || now - self.last_refresh >= self.refresh_interval
    }

    /// The index of the address that is shown next: the stored one, or the
    /// first where the stored one is past the end.
    pub open spec fn turn(self) -> int {
        if self.index >= self.addresses.len() {
            0
        } else {
            self.index as int
        }
    }
}

impl InterfaceCache {
    /// An empty cache whose scans go stale after `refresh_interval` seconds
    /// and which is emptied by force at every `forced_every`-th check.
    pub fn new(refresh_interval: u64, forced_every: u32) -> (cache: InterfaceCache)
        ensures
            cache@ == (CacheModel {
                addresses: Seq::<AddressModel>::empty(),
                index: 0,
                last_refresh: 0,
                refresh_interval: refresh_interval as nat,
                checks: 0,
                forced_every: forced_every as nat,
            }),
    {
        let cache = InterfaceCache {
            addresses: Vec::new(),
            index: 0,
            last_refresh: 0,
            refresh_interval,
            checks: 0,
            forced_every,
        };
        assert(cache@.addresses =~= Seq::<AddressModel>::empty());
        cache
    }

    /// Whether the interfaces have to be scanned again at time `now`.
    pub fn needs_refresh(&self, now: u64) -> (due: bool)
        ensures
            due == self@.stale(now as nat),
    {
        self.addresses.len() == 0 || (now >= self.last_refresh && now - self.last_refresh
            >= self.refresh_interval)
    }

    /// Takes in the addresses of a scan made at time `now`; the first of them
    /// is shown next.
    pub fn refresh(&mut self, addresses: Vec<(String, String, [u8; 4])>, now: u64)
        ensures
            final(self)@ == (CacheModel {
                addresses: addresses@.map_values(|a: (String, String, [u8; 4])| address_model(a)),
                index: 0,
                last_refresh: now as nat,
                ..old(self)@
            }),
    {
        self.addresses = addresses;
        self.index = 0;
        self.last_refresh = now;
    }

    /// Counts one check of the network. At every `forced_every`-th check the
    /// count starts over and the cache is emptied, so that the next look at
    /// it asks for a scan.
    pub fn periodic_check(&mut self)
        ensures
            final(self)@ == if old(self)@.checks + 1 >= old(self)@.forced_every {
                CacheModel { addresses: Seq::<AddressModel>::empty(), checks: 0, ..old(self)@ }
            } else {
                CacheModel { checks: old(self)@.checks + 1, ..old(self)@ }
            },
    {
        if self.checks == u32::MAX || self.checks + 1 >= self.forced_every {
            self.checks = 0;
            self.addresses.clear();
            assert(self@.addresses =~= Seq::<AddressModel>::empty());
        } else {
            self.checks = self.checks + 1;
        }
    }
}

/// Whether the network is looked at in the given cycle of the host loop:
/// in every fifth.
pub fn poll_due(iteration: u64) -> (due: bool)
    ensures
        due == (iteration % 5 == 0),
{
    iteration % 5 == 0
}

/// The address to show now. The addresses of the cache are shown in turn,
/// starting over after the last one; an empty cache gives the record that
/// stands for no interface and is left as it was.
pub fn get_local_ip(cache: &mut InterfaceCache) -> (info: (String, String, [u8; 4]))
    ensures
        old(cache)@.addresses.len() == 0 ==> address_model(info) == no_interface() && final(cache)@ == old(
            cache,
        )@,
        old(cache)@.addresses.len() > 0 ==> address_model(info) == old(cache)@.addresses[old(cache)@.turn()]
            && final(cache)@ == (CacheModel {
            index: ((old(cache)@.turn() + 1) % (old(cache)@.addresses.len() as int)) as nat,
            ..old(cache)@
        }),
{
    if cache.addresses.len() == 0 {
        let octets: [u8; 4] = [0, 0, 0, 0];
        assert(octets@ =~= seq![0u8, 0u8, 0u8, 0u8]);
        return (String::from_str("NoInterface"), String::from_str("0.0.0.0"), octets);
    }
    if cache.index >= cache.addresses.len() {
        cache.index = 0;
    }
    let entry = &cache.addresses[cache.index];
    let info = (entry.0.clone(), entry.1.clone(), entry.2);
    cache.index = (cache.index + 1) % cache.addresses.len();
    info
}

} // verus!
