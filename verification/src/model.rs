//! Response models: the records that the structured replies decode to.
//!
//! A record decodes from an object. Each of its fields decodes from the
//! member of that name; members that the record does not know are passed
//! over, and a member that is absent reads as null, which only an optional
//! field accepts. Lists keep their order.
use crate::json::{field, lemma_object_view, member, Decode, Json, JsonView, MemberView};
use crate::text::same_text;
use crate::token::{HealthStatus, MonState, RoundStatus};
use vstd::prelude::*;

verus! {

/// A number that may have a fraction or an exponent, kept as its literal.
#[derive(Debug, Clone, PartialEq, Eq)]
pub struct Real {
    pub literal: String,
}

/// A real number decodes from any number.
impl Decode for Real {
    open spec fn decodable(doc: JsonView) -> bool {
        doc is Number
    }

    open spec fn decoded_from(&self, doc: JsonView) -> bool {
        doc == JsonView::Number(self.literal@)
    }

    fn decode(doc: &Json) -> (r: Option<Real>) {
        match doc {
            Json::Number(literal) => Some(Real { literal: literal.clone() }),
            _ => None,
        }
    }
}

/// The identifier of a cluster: the 128 bits of a universally unique
/// identifier, most significant first.
#[derive(Debug, Clone, Copy, PartialEq, Eq)]
pub struct ClusterId {
    pub bits: u128,
}

/// The 128 bits that a text spells as a universally unique identifier, where
/// it spells one.
pub uninterp spec fn uuid_bits(text: Seq<char>) -> Option<u128>;

/// `uuid::Uuid::parse_str`, then `Uuid::as_u128`: reads `text` as a
/// universally unique identifier. The result depends on the text alone, and
/// `uuid_bits` names it; nothing is claimed of which texts are accepted.
#[verifier::external_body]
fn parse_uuid(text: &str) -> (r: Option<u128>)
    ensures
        r == uuid_bits(text@),
{
    match uuid::Uuid::parse_str(text) {
        Ok(id) => Some(id.as_u128()),
        Err(_) => None,
    }
}

/// A cluster identifier decodes from a text that spells a universally unique
/// identifier.
impl Decode for ClusterId {
    open spec fn decodable(doc: JsonView) -> bool {
        doc is Text && uuid_bits(doc->Text_0) is Some
    }

    open spec fn decoded_from(&self, doc: JsonView) -> bool {
        doc is Text && uuid_bits(doc->Text_0) == Some(self.bits)
    }

    fn decode(doc: &Json) -> (r: Option<ClusterId>) {
        match doc {
            Json::Text(text) => match parse_uuid(text.as_str()) {
                Some(bits) => Some(ClusterId { bits }),
                None => None,
            },
            _ => None,
        }
    }
}

/// A health status decodes from the text that is its token.
impl Decode for HealthStatus {
    open spec fn decodable(doc: JsonView) -> bool {
        doc is Text && HealthStatus::of_token(doc->Text_0) is Some
    }

    open spec fn decoded_from(&self, doc: JsonView) -> bool {
        doc is Text && HealthStatus::of_token(doc->Text_0) == Some(*self)
    }

    fn decode(doc: &Json) -> (r: Option<HealthStatus>) {
        match doc {
            Json::Text(text) => HealthStatus::from_token(text.as_str()),
            _ => None,
        }
    }
}

/// A round status decodes from the text that is its token.
impl Decode for RoundStatus {
    open spec fn decodable(doc: JsonView) -> bool {
        doc is Text && RoundStatus::of_token(doc->Text_0) is Some
    }

    open spec fn decoded_from(&self, doc: JsonView) -> bool {
        doc is Text && RoundStatus::of_token(doc->Text_0) == Some(*self)
    }

    fn decode(doc: &Json) -> (r: Option<RoundStatus>) {
        match doc {
            Json::Text(text) => RoundStatus::from_token(text.as_str()),
            _ => None,
        }
    }
}

/// A monitor state decodes from the text that is its token.
impl Decode for MonState {
    open spec fn decodable(doc: JsonView) -> bool {
        doc is Text && MonState::of_token(doc->Text_0) is Some
    }

    open spec fn decoded_from(&self, doc: JsonView) -> bool {
        doc is Text && MonState::of_token(doc->Text_0) == Some(*self)
    }

    fn decode(doc: &Json) -> (r: Option<MonState>) {
        match doc {
            Json::Text(text) => MonState::from_token(text.as_str()),
            _ => None,
        }
    }
}

/// Counts by name, in the order of the members they were decoded from. No
/// name occurs twice.
#[derive(Debug, PartialEq, Eq)]
pub struct Counts {
    entries: Vec<(String, u64)>,
}

impl View for Counts {
    type V = Seq<(Seq<char>, u64)>;

    closed spec fn view(&self) -> Seq<(Seq<char>, u64)> {
        self.entries@.map_values(|e: (String, u64)| (e.0@, e.1))
    }
}

/// Whether no name occurs twice among `entries`.
pub open spec fn distinct_counts(entries: Seq<(Seq<char>, u64)>) -> bool {
    forall|i: int, j: int| 0 <= i < j < entries.len() ==> entries[i].0 != entries[j].0
}

/// The count that goes by `name` among `entries`, if there is one.
pub open spec fn count_of(entries: Seq<(Seq<char>, u64)>, name: Seq<char>) -> Option<u64>
    decreases entries.len(),
{
    if entries.len() == 0 {
        None
    } else if entries[0].0 == name {
        Some(entries[0].1)
    } else {
        count_of(entries.skip(1), name)
    }
}

impl Counts {
    #[verifier::type_invariant]
    closed spec fn wf(self) -> bool {
        distinct_counts(self@)
    }

    /// The names and their counts, in their order.
    pub fn entries(&self) -> (r: &Vec<(String, u64)>)
        ensures
            r@.map_values(|e: (String, u64)| (e.0@, e.1)) == self@,
            distinct_counts(self@),
    {
        proof {
            use_type_invariant(self);
        }
        &self.entries
    }

    /// The count that goes by `name`, if there is one.
    pub fn get(&self, name: &str) -> (r: Option<u64>)
        ensures
            r == count_of(self@, name@),
    {
        let ghost all = self@;
        let mut i: usize = 0;
        assert(all.skip(0) =~= all);
        while i < self.entries.len()
            invariant
                i <= self.entries.len(),
                all == self@,
                count_of(all, name@) == count_of(all.skip(i as int), name@),
            decreases self.entries.len() - i,
        {
            assert(all.skip(i as int)[0] == (self.entries@[i as int].0@, self.entries@[i as int].1));
            if same_text(self.entries[i].0.as_str(), name) {
                return Some(self.entries[i].1);
            }
            assert(all.skip(i as int).skip(1) =~= all.skip(i + 1));
            i = i + 1;
        }
        assert(all.skip(i as int).len() == 0);
        None
    }
}

/// Whether no two of `members` share a name.
pub open spec fn distinct_names(members: Seq<MemberView>) -> bool {
    forall|i: int, j: int| 0 <= i < j < members.len() ==> members[i].name != members[j].name
}

/// Counts decode from an object whose members are all unsigned numbers and
/// all differ in name.
impl Decode for Counts {
    open spec fn decodable(doc: JsonView) -> bool {
        &&& doc is Object
        &&& forall|i: int|
            0 <= i < doc->Object_0.len() ==> u64::decodable((#[trigger] doc->Object_0[i]).value)
        &&& distinct_names(doc->Object_0)
    }

    open spec fn decoded_from(&self, doc: JsonView) -> bool {
        &&& doc is Object
        &&& self@.len() == doc->Object_0.len()
        &&& forall|i: int|
            0 <= i < self@.len() ==> {
                &&& (#[trigger] self@[i]).0 == doc->Object_0[i].name
                &&& self@[i].1.decoded_from(doc->Object_0[i].value)
            }
    }

    fn decode(doc: &Json) -> (r: Option<Counts>) {
        match doc {
            Json::Object(members) => {
                let ghost all = doc@->Object_0;
                proof {
                    lemma_object_view(*members);
                }
                let mut entries: Vec<(String, u64)> = Vec::new();
                let mut i: usize = 0;
                while i < members.len()
                    invariant
                        i <= members.len(),
                        doc@ == JsonView::Object(all),
                        all.len() == members@.len(),
                        forall|k: int|
                            0 <= k < members@.len() ==> (#[trigger] all[k]) == (MemberView {
                                name: members@[k].0@,
                                value: members@[k].1@,
                            }),
                        entries@.len() == i,
                        forall|k: int| 0 <= k < i ==> u64::decodable((#[trigger] all[k]).value),
                        forall|a: int, b: int| 0 <= a < b < i ==> all[a].name != all[b].name,
                        forall|k: int|
                            0 <= k < i ==> {
                                &&& (#[trigger] entries@[k]).0@ == all[k].name
                                &&& entries@[k].1.decoded_from(all[k].value)
                            },
                    decreases members.len() - i,
                {
                    let mut j: usize = 0;
                    while j < i
                        invariant
                            j <= i < members.len(),
                            all.len() == members@.len(),
                            forall|k: int|
                                0 <= k < members@.len() ==> (#[trigger] all[k]) == (MemberView {
                                    name: members@[k].0@,
                                    value: members@[k].1@,
                                }),
                            doc@ == JsonView::Object(all),
                            forall|k: int| 0 <= k < j ==> all[k].name != all[i as int].name,
                        decreases i - j,
                    {
                        if same_text(members[j].0.as_str(), members[i].0.as_str()) {
                            assert(all[j as int].name == all[i as int].name);
                            assert(!distinct_names(doc@->Object_0));
                            return None;
                        }
                        j = j + 1;
                    }
                    match u64::decode(&members[i].1) {
                        Some(n) => {
                            entries.push((members[i].0.clone(), n));
                        },
                        None => {
                            assert(!u64::decodable(all[i as int].value));
                            assert(doc@->Object_0[i as int] == all[i as int]);
                            return None;
                        },
                    }
                    i = i + 1;
                }
                let ghost view = entries@.map_values(|e: (String, u64)| (e.0@, e.1));
                assert forall|a: int, b: int| 0 <= a < b < view.len() implies view[a].0
                    != view[b].0 by {
                    assert(entries@[a].0@ == all[a].name);
                    assert(entries@[b].0@ == all[b].name);
                }
                assert forall|k: int| 0 <= k < view.len() implies {
                    &&& (#[trigger] view[k]).0 == all[k].name
                    &&& view[k].1.decoded_from(all[k].value)
                } by {
                    assert(entries@[k].0@ == all[k].name);
                }
                Some(Counts { entries })
            },
            _ => None,
        }
    }
}


/// A monitor as the monitor map lists it.
#[derive(Debug, Clone, PartialEq, Eq)]
pub struct CephMon {
    pub rank: i64,
    pub name: String,
    pub addr: String,
}

impl Decode for CephMon {
    open spec fn decodable(doc: JsonView) -> bool {
        &&& doc is Object
        &&& i64::decodable(member(doc, "rank"@))
        &&& String::decodable(member(doc, "name"@))
        &&& String::decodable(member(doc, "addr"@))
    }

    open spec fn decoded_from(&self, doc: JsonView) -> bool {
        &&& doc is Object
        &&& self.rank.decoded_from(member(doc, "rank"@))
        &&& self.name.decoded_from(member(doc, "name"@))
        &&& self.addr.decoded_from(member(doc, "addr"@))
    }

    fn decode(doc: &Json) -> (r: Option<CephMon>) {
        match doc {
            Json::Object(_) => {},
            _ => {
                return None;
            },
        }
        let rank = field::<i64>(doc, "rank")?;
        let name = field::<String>(doc, "name")?;
        let addr = field::<String>(doc, "addr")?;
        Some(CephMon { rank, name, addr })
    }
}

/// A node of the placement tree: a bucket or a storage daemon.
#[derive(Debug, Clone, PartialEq, Eq)]
pub struct CrushNode {
    pub id: i64,
    pub name: String,
    pub crush_type: String,
    pub type_id: i64,
    pub children: Option<Vec<i64>>,
    pub crush_weight: Option<Real>,
    pub depth: Option<i64>,
    pub exists: Option<i64>,
    pub status: Option<String>,
    pub reweight: Option<Real>,
    pub primary_affinity: Option<Real>,
}

impl Decode for CrushNode {
    open spec fn decodable(doc: JsonView) -> bool {
        &&& doc is Object
        &&& i64::decodable(member(doc, "id"@))
        &&& String::decodable(member(doc, "name"@))
        &&& String::decodable(member(doc, "type"@))
        &&& i64::decodable(member(doc, "type_id"@))
        &&& Option::<Vec<i64>>::decodable(member(doc, "children"@))
        &&& Option::<Real>::decodable(member(doc, "crush_weight"@))
        &&& Option::<i64>::decodable(member(doc, "depth"@))
        &&& Option::<i64>::decodable(member(doc, "exists"@))
        &&& Option::<String>::decodable(member(doc, "status"@))
        &&& Option::<Real>::decodable(member(doc, "reweight"@))
        &&& Option::<Real>::decodable(member(doc, "primary_affinity"@))
    }

    open spec fn decoded_from(&self, doc: JsonView) -> bool {
        &&& doc is Object
        &&& self.id.decoded_from(member(doc, "id"@))
        &&& self.name.decoded_from(member(doc, "name"@))
        &&& self.crush_type.decoded_from(member(doc, "type"@))
        &&& self.type_id.decoded_from(member(doc, "type_id"@))
        &&& self.children.decoded_from(member(doc, "children"@))
        &&& self.crush_weight.decoded_from(member(doc, "crush_weight"@))
        &&& self.depth.decoded_from(member(doc, "depth"@))
        &&& self.exists.decoded_from(member(doc, "exists"@))
        &&& self.status.decoded_from(member(doc, "status"@))
        &&& self.reweight.decoded_from(member(doc, "reweight"@))
        &&& self.primary_affinity.decoded_from(member(doc, "primary_affinity"@))
    }

    fn decode(doc: &Json) -> (r: Option<CrushNode>) {
        match doc {
            Json::Object(_) => {},
            _ => {
                return None;
            },
        }
        let id = field::<i64>(doc, "id")?;
        let name = field::<String>(doc, "name")?;
        let crush_type = field::<String>(doc, "type")?;
        let type_id = field::<i64>(doc, "type_id")?;
        let children = field::<Option<Vec<i64>>>(doc, "children")?;
        let crush_weight = field::<Option<Real>>(doc, "crush_weight")?;
        let depth = field::<Option<i64>>(doc, "depth")?;
        let exists = field::<Option<i64>>(doc, "exists")?;
        let status = field::<Option<String>>(doc, "status")?;
        let reweight = field::<Option<Real>>(doc, "reweight")?;
        let primary_affinity = field::<Option<Real>>(doc, "primary_affinity")?;
        Some(CrushNode { id, name, crush_type, type_id, children, crush_weight, depth, exists, status, reweight, primary_affinity })
    }
}

/// The placement tree, and the daemons that it does not place.
#[derive(Debug, Clone, PartialEq, Eq)]
pub struct CrushTree {
    pub nodes: Vec<CrushNode>,
    pub stray: Vec<String>,
}

impl Decode for CrushTree {
    open spec fn decodable(doc: JsonView) -> bool {
        &&& doc is Object
        &&& Vec::<CrushNode>::decodable(member(doc, "nodes"@))
        &&& Vec::<String>::decodable(member(doc, "stray"@))
    }

    open spec fn decoded_from(&self, doc: JsonView) -> bool {
        &&& doc is Object
        &&& self.nodes.decoded_from(member(doc, "nodes"@))
        &&& self.stray.decoded_from(member(doc, "stray"@))
    }

    fn decode(doc: &Json) -> (r: Option<CrushTree>) {
        match doc {
            Json::Object(_) => {},
            _ => {
                return None;
            },
        }
        let nodes = field::<Vec<CrushNode>>(doc, "nodes")?;
        let stray = field::<Vec<String>>(doc, "stray")?;
        Some(CrushTree { nodes, stray })
    }
}

/// What a manager daemon reports of its host.
#[derive(Debug, Clone, PartialEq, Eq)]
pub struct MgrMetadata {
    pub id: String,
    pub arch: String,
    pub ceph_version: String,
    pub cpu: String,
    pub distro: String,
    pub distro_description: String,
    pub distro_version: String,
    pub hostname: String,
    pub kernel_description: String,
    pub kernel_version: String,
    pub mem_swap_kb: u64,
    pub mem_total_kb: u64,
    pub os: String,
}

impl Decode for MgrMetadata {
    open spec fn decodable(doc: JsonView) -> bool {
        &&& doc is Object
        &&& String::decodable(member(doc, "id"@))
        &&& String::decodable(member(doc, "arch"@))
        &&& String::decodable(member(doc, "ceph_version"@))
        &&& String::decodable(member(doc, "cpu"@))
        &&& String::decodable(member(doc, "distro"@))
        &&& String::decodable(member(doc, "distro_description"@))
        &&& String::decodable(member(doc, "distro_version"@))
        &&& String::decodable(member(doc, "hostname"@))
        &&& String::decodable(member(doc, "kernel_description"@))
        &&& String::decodable(member(doc, "kernel_version"@))
        &&& u64::decodable(member(doc, "mem_swap_kb"@))
        &&& u64::decodable(member(doc, "mem_total_kb"@))
        &&& String::decodable(member(doc, "os"@))
    }

    open spec fn decoded_from(&self, doc: JsonView) -> bool {
        &&& doc is Object
        &&& self.id.decoded_from(member(doc, "id"@))
        &&& self.arch.decoded_from(member(doc, "arch"@))
        &&& self.ceph_version.decoded_from(member(doc, "ceph_version"@))
        &&& self.cpu.decoded_from(member(doc, "cpu"@))
        &&& self.distro.decoded_from(member(doc, "distro"@))
        &&& self.distro_description.decoded_from(member(doc, "distro_description"@))
        &&& self.distro_version.decoded_from(member(doc, "distro_version"@))
        &&& self.hostname.decoded_from(member(doc, "hostname"@))
        &&& self.kernel_description.decoded_from(member(doc, "kernel_description"@))
        &&& self.kernel_version.decoded_from(member(doc, "kernel_version"@))
        &&& self.mem_swap_kb.decoded_from(member(doc, "mem_swap_kb"@))
        &&& self.mem_total_kb.decoded_from(member(doc, "mem_total_kb"@))
        &&& self.os.decoded_from(member(doc, "os"@))
    }

    fn decode(doc: &Json) -> (r: Option<MgrMetadata>) {
        match doc {
            Json::Object(_) => {},
            _ => {
                return None;
            },
        }
        let id = field::<String>(doc, "id")?;
        let arch = field::<String>(doc, "arch")?;
        let ceph_version = field::<String>(doc, "ceph_version")?;
        let cpu = field::<String>(doc, "cpu")?;
        let distro = field::<String>(doc, "distro")?;
        let distro_description = field::<String>(doc, "distro_description")?;
        let distro_version = field::<String>(doc, "distro_version")?;
        let hostname = field::<String>(doc, "hostname")?;
        let kernel_description = field::<String>(doc, "kernel_description")?;
        let kernel_version = field::<String>(doc, "kernel_version")?;
        let mem_swap_kb = field::<u64>(doc, "mem_swap_kb")?;
        let mem_total_kb = field::<u64>(doc, "mem_total_kb")?;
        let os = field::<String>(doc, "os")?;
        Some(MgrMetadata { id, arch, ceph_version, cpu, distro, distro_description, distro_version, hostname, kernel_description, kernel_version, mem_swap_kb, mem_total_kb, os })
    }
}

/// A manager daemon that stands by.
#[derive(Debug, Clone, PartialEq, Eq)]
pub struct MgrStandby {
    pub gid: u64,
    pub name: String,
    pub available_modules: Vec<String>,
}

impl Decode for MgrStandby {
    open spec fn decodable(doc: JsonView) -> bool {
        &&& doc is Object
        &&& u64::decodable(member(doc, "gid"@))
        &&& String::decodable(member(doc, "name"@))
        &&& Vec::<String>::decodable(member(doc, "available_modules"@))
    }

    open spec fn decoded_from(&self, doc: JsonView) -> bool {
        &&& doc is Object
        &&& self.gid.decoded_from(member(doc, "gid"@))
        &&& self.name.decoded_from(member(doc, "name"@))
        &&& self.available_modules.decoded_from(member(doc, "available_modules"@))
    }

    fn decode(doc: &Json) -> (r: Option<MgrStandby>) {
        match doc {
            Json::Object(_) => {},
            _ => {
                return None;
            },
        }
        let gid = field::<u64>(doc, "gid")?;
        let name = field::<String>(doc, "name")?;
        let available_modules = field::<Vec<String>>(doc, "available_modules")?;
        Some(MgrStandby { gid, name, available_modules })
    }
}

/// The manager map.
#[derive(Debug, Clone, PartialEq, Eq)]
pub struct MgrDump {
    pub epoch: u64,
    pub active_gid: u64,
    pub active_name: String,
    pub active_addr: String,
    pub available: bool,
    pub standbys: Vec<MgrStandby>,
    pub modules: Vec<String>,
    pub available_modules: Vec<String>,
}

impl Decode for MgrDump {
    open spec fn decodable(doc: JsonView) -> bool {
        &&& doc is Object
        &&& u64::decodable(member(doc, "epoch"@))
        &&& u64::decodable(member(doc, "active_gid"@))
        &&& String::decodable(member(doc, "active_name"@))
        &&& String::decodable(member(doc, "active_addr"@))
        &&& bool::decodable(member(doc, "available"@))
        &&& Vec::<MgrStandby>::decodable(member(doc, "standbys"@))
        &&& Vec::<String>::decodable(member(doc, "modules"@))
        &&& Vec::<String>::decodable(member(doc, "available_modules"@))
    }

    open spec fn decoded_from(&self, doc: JsonView) -> bool {
        &&& doc is Object
        &&& self.epoch.decoded_from(member(doc, "epoch"@))
        &&& self.active_gid.decoded_from(member(doc, "active_gid"@))
        &&& self.active_name.decoded_from(member(doc, "active_name"@))
        &&& self.active_addr.decoded_from(member(doc, "active_addr"@))
        &&& self.available.decoded_from(member(doc, "available"@))
        &&& self.standbys.decoded_from(member(doc, "standbys"@))
        &&& self.modules.decoded_from(member(doc, "modules"@))
        &&& self.available_modules.decoded_from(member(doc, "available_modules"@))
    }

    fn decode(doc: &Json) -> (r: Option<MgrDump>) {
        match doc {
            Json::Object(_) => {},
            _ => {
                return None;
            },
        }
        let epoch = field::<u64>(doc, "epoch")?;
        let active_gid = field::<u64>(doc, "active_gid")?;
        let active_name = field::<String>(doc, "active_name")?;
        let active_addr = field::<String>(doc, "active_addr")?;
        let available = field::<bool>(doc, "available")?;
        let standbys = field::<Vec<MgrStandby>>(doc, "standbys")?;
        let modules = field::<Vec<String>>(doc, "modules")?;
        let available_modules = field::<Vec<String>>(doc, "available_modules")?;
        Some(MgrDump { epoch, active_gid, active_name, active_addr, available, standbys, modules, available_modules })
    }
}

/// The monitor map, with the ranks that form the quorum in their order.
#[derive(Debug, Clone, PartialEq, Eq)]
pub struct MonDump {
    pub epoch: i64,
    pub fsid: String,
    pub modified: String,
    pub created: String,
    pub mons: Vec<CephMon>,
    pub quorum: Vec<i64>,
}

impl Decode for MonDump {
    open spec fn decodable(doc: JsonView) -> bool {
        &&& doc is Object
        &&& i64::decodable(member(doc, "epoch"@))
        &&& String::decodable(member(doc, "fsid"@))
        &&& String::decodable(member(doc, "modified"@))
        &&& String::decodable(member(doc, "created"@))
        &&& Vec::<CephMon>::decodable(member(doc, "mons"@))
        &&& Vec::<i64>::decodable(member(doc, "quorum"@))
    }

    open spec fn decoded_from(&self, doc: JsonView) -> bool {
        &&& doc is Object
        &&& self.epoch.decoded_from(member(doc, "epoch"@))
        &&& self.fsid.decoded_from(member(doc, "fsid"@))
        &&& self.modified.decoded_from(member(doc, "modified"@))
        &&& self.created.decoded_from(member(doc, "created"@))
        &&& self.mons.decoded_from(member(doc, "mons"@))
        &&& self.quorum.decoded_from(member(doc, "quorum"@))
    }

    fn decode(doc: &Json) -> (r: Option<MonDump>) {
        match doc {
            Json::Object(_) => {},
            _ => {
                return None;
            },
        }
        let epoch = field::<i64>(doc, "epoch")?;
        let fsid = field::<String>(doc, "fsid")?;
        let modified = field::<String>(doc, "modified")?;
        let created = field::<String>(doc, "created")?;
        let mons = field::<Vec<CephMon>>(doc, "mons")?;
        let quorum = field::<Vec<i64>>(doc, "quorum")?;
        Some(MonDump { epoch, fsid, modified, created, mons, quorum })
    }
}

/// A monitor as a monitor's own status lists it.
#[derive(Debug, Clone, PartialEq, Eq)]
pub struct Mon {
    pub rank: u64,
    pub name: String,
    pub addr: String,
}

impl Decode for Mon {
    open spec fn decodable(doc: JsonView) -> bool {
        &&& doc is Object
        &&& u64::decodable(member(doc, "rank"@))
        &&& String::decodable(member(doc, "name"@))
        &&& String::decodable(member(doc, "addr"@))
    }

    open spec fn decoded_from(&self, doc: JsonView) -> bool {
        &&& doc is Object
        &&& self.rank.decoded_from(member(doc, "rank"@))
        &&& self.name.decoded_from(member(doc, "name"@))
        &&& self.addr.decoded_from(member(doc, "addr"@))
    }

    fn decode(doc: &Json) -> (r: Option<Mon>) {
        match doc {
            Json::Object(_) => {},
            _ => {
                return None;
            },
        }
        let rank = field::<u64>(doc, "rank")?;
        let name = field::<String>(doc, "name")?;
        let addr = field::<String>(doc, "addr")?;
        Some(Mon { rank, name, addr })
    }
}

/// The monitor map as a monitor's own status holds it.
#[derive(Debug, Clone, PartialEq, Eq)]
pub struct MonMap {
    pub epoch: u64,
    pub fsid: ClusterId,
    pub modified: String,
    pub created: String,
    pub mons: Vec<Mon>,
}

impl Decode for MonMap {
    open spec fn decodable(doc: JsonView) -> bool {
        &&& doc is Object
        &&& u64::decodable(member(doc, "epoch"@))
        &&& ClusterId::decodable(member(doc, "fsid"@))
        &&& String::decodable(member(doc, "modified"@))
        &&& String::decodable(member(doc, "created"@))
        &&& Vec::<Mon>::decodable(member(doc, "mons"@))
    }

    open spec fn decoded_from(&self, doc: JsonView) -> bool {
        &&& doc is Object
        &&& self.epoch.decoded_from(member(doc, "epoch"@))
        &&& self.fsid.decoded_from(member(doc, "fsid"@))
        &&& self.modified.decoded_from(member(doc, "modified"@))
        &&& self.created.decoded_from(member(doc, "created"@))
        &&& self.mons.decoded_from(member(doc, "mons"@))
    }

    fn decode(doc: &Json) -> (r: Option<MonMap>) {
        match doc {
            Json::Object(_) => {},
            _ => {
                return None;
            },
        }
        let epoch = field::<u64>(doc, "epoch")?;
        let fsid = field::<ClusterId>(doc, "fsid")?;
        let modified = field::<String>(doc, "modified")?;
        let created = field::<String>(doc, "created")?;
        let mons = field::<Vec<Mon>>(doc, "mons")?;
        Some(MonMap { epoch, fsid, modified, created, mons })
    }
}

/// A monitor's own status.
#[derive(Debug, Clone, PartialEq, Eq)]
pub struct MonStatus {
    pub name: String,
    pub rank: u64,
    pub state: MonState,
    pub election_epoch: u64,
    pub quorum: Vec<u64>,
    pub outside_quorum: Vec<u64>,
    pub extra_probe_peers: Vec<u64>,
    pub sync_provider: Vec<u64>,
    pub monmap: MonMap,
}

impl Decode for MonStatus {
    open spec fn decodable(doc: JsonView) -> bool {
        &&& doc is Object
        &&& String::decodable(member(doc, "name"@))
        &&& u64::decodable(member(doc, "rank"@))
        &&& MonState::decodable(member(doc, "state"@))
        &&& u64::decodable(member(doc, "election_epoch"@))
        &&& Vec::<u64>::decodable(member(doc, "quorum"@))
        &&& Vec::<u64>::decodable(member(doc, "outside_quorum"@))
        &&& Vec::<u64>::decodable(member(doc, "extra_probe_peers"@))
        &&& Vec::<u64>::decodable(member(doc, "sync_provider"@))
        &&& MonMap::decodable(member(doc, "monmap"@))
    }

    open spec fn decoded_from(&self, doc: JsonView) -> bool {
        &&& doc is Object
        &&& self.name.decoded_from(member(doc, "name"@))
        &&& self.rank.decoded_from(member(doc, "rank"@))
        &&& self.state.decoded_from(member(doc, "state"@))
        &&& self.election_epoch.decoded_from(member(doc, "election_epoch"@))
        &&& self.quorum.decoded_from(member(doc, "quorum"@))
        &&& self.outside_quorum.decoded_from(member(doc, "outside_quorum"@))
        &&& self.extra_probe_peers.decoded_from(member(doc, "extra_probe_peers"@))
        &&& self.sync_provider.decoded_from(member(doc, "sync_provider"@))
        &&& self.monmap.decoded_from(member(doc, "monmap"@))
    }

    fn decode(doc: &Json) -> (r: Option<MonStatus>) {
        match doc {
            Json::Object(_) => {},
            _ => {
                return None;
            },
        }
        let name = field::<String>(doc, "name")?;
        let rank = field::<u64>(doc, "rank")?;
        let state = field::<MonState>(doc, "state")?;
        let election_epoch = field::<u64>(doc, "election_epoch")?;
        let quorum = field::<Vec<u64>>(doc, "quorum")?;
        let outside_quorum = field::<Vec<u64>>(doc, "outside_quorum")?;
        let extra_probe_peers = field::<Vec<u64>>(doc, "extra_probe_peers")?;
        let sync_provider = field::<Vec<u64>>(doc, "sync_provider")?;
        let monmap = field::<MonMap>(doc, "monmap")?;
        Some(MonStatus { name, rank, state, election_epoch, quorum, outside_quorum, extra_probe_peers, sync_provider, monmap })
    }
}

/// How large a monitor's store is.
#[derive(Debug, Clone, PartialEq, Eq)]
pub struct StoreStats {
    pub bytes_total: u64,
    pub bytes_sst: u64,
    pub bytes_log: u64,
    pub bytes_misc: u64,
    pub last_updated: String,
}

impl Decode for StoreStats {
    open spec fn decodable(doc: JsonView) -> bool {
        &&& doc is Object
        &&& u64::decodable(member(doc, "bytes_total"@))
        &&& u64::decodable(member(doc, "bytes_sst"@))
        &&& u64::decodable(member(doc, "bytes_log"@))
        &&& u64::decodable(member(doc, "bytes_misc"@))
        &&& String::decodable(member(doc, "last_updated"@))
    }

    open spec fn decoded_from(&self, doc: JsonView) -> bool {
        &&& doc is Object
        &&& self.bytes_total.decoded_from(member(doc, "bytes_total"@))
        &&& self.bytes_sst.decoded_from(member(doc, "bytes_sst"@))
        &&& self.bytes_log.decoded_from(member(doc, "bytes_log"@))
        &&& self.bytes_misc.decoded_from(member(doc, "bytes_misc"@))
        &&& self.last_updated.decoded_from(member(doc, "last_updated"@))
    }

    fn decode(doc: &Json) -> (r: Option<StoreStats>) {
        match doc {
            Json::Object(_) => {},
            _ => {
                return None;
            },
        }
        let bytes_total = field::<u64>(doc, "bytes_total")?;
        let bytes_sst = field::<u64>(doc, "bytes_sst")?;
        let bytes_log = field::<u64>(doc, "bytes_log")?;
        let bytes_misc = field::<u64>(doc, "bytes_misc")?;
        let last_updated = field::<String>(doc, "last_updated")?;
        Some(StoreStats { bytes_total, bytes_sst, bytes_log, bytes_misc, last_updated })
    }
}

/// The health of one monitor.
#[derive(Debug, Clone, PartialEq, Eq)]
pub struct MonHealth {
    pub name: String,
    pub kb_total: u64,
    pub kb_used: u64,
    pub kb_avail: u64,
    pub avail_percent: u8,
    pub last_updated: String,
    pub store_stats: StoreStats,
    pub health: HealthStatus,
}

impl Decode for MonHealth {
    open spec fn decodable(doc: JsonView) -> bool {
        &&& doc is Object
        &&& String::decodable(member(doc, "name"@))
        &&& u64::decodable(member(doc, "kb_total"@))
        &&& u64::decodable(member(doc, "kb_used"@))
        &&& u64::decodable(member(doc, "kb_avail"@))
        &&& u8::decodable(member(doc, "avail_percent"@))
        &&& String::decodable(member(doc, "last_updated"@))
        &&& StoreStats::decodable(member(doc, "store_stats"@))
        &&& HealthStatus::decodable(member(doc, "health"@))
    }

    open spec fn decoded_from(&self, doc: JsonView) -> bool {
        &&& doc is Object
        &&& self.name.decoded_from(member(doc, "name"@))
        &&& self.kb_total.decoded_from(member(doc, "kb_total"@))
        &&& self.kb_used.decoded_from(member(doc, "kb_used"@))
        &&& self.kb_avail.decoded_from(member(doc, "kb_avail"@))
        &&& self.avail_percent.decoded_from(member(doc, "avail_percent"@))
        &&& self.last_updated.decoded_from(member(doc, "last_updated"@))
        &&& self.store_stats.decoded_from(member(doc, "store_stats"@))
        &&& self.health.decoded_from(member(doc, "health"@))
    }

    fn decode(doc: &Json) -> (r: Option<MonHealth>) {
        match doc {
            Json::Object(_) => {},
            _ => {
                return None;
            },
        }
        let name = field::<String>(doc, "name")?;
        let kb_total = field::<u64>(doc, "kb_total")?;
        let kb_used = field::<u64>(doc, "kb_used")?;
        let kb_avail = field::<u64>(doc, "kb_avail")?;
        let avail_percent = field::<u8>(doc, "avail_percent")?;
        let last_updated = field::<String>(doc, "last_updated")?;
        let store_stats = field::<StoreStats>(doc, "store_stats")?;
        let health = field::<HealthStatus>(doc, "health")?;
        Some(MonHealth { name, kb_total, kb_used, kb_avail, avail_percent, last_updated, store_stats, health })
    }
}

/// The health of the monitors of one service.
#[derive(Debug, Clone, PartialEq, Eq)]
pub struct ServiceHealth {
    pub mons: Vec<MonHealth>,
}

impl Decode for ServiceHealth {
    open spec fn decodable(doc: JsonView) -> bool {
        &&& doc is Object
        &&& Vec::<MonHealth>::decodable(member(doc, "mons"@))
    }

    open spec fn decoded_from(&self, doc: JsonView) -> bool {
        &&& doc is Object
        &&& self.mons.decoded_from(member(doc, "mons"@))
    }

    fn decode(doc: &Json) -> (r: Option<ServiceHealth>) {
        match doc {
            Json::Object(_) => {},
            _ => {
                return None;
            },
        }
        let mons = field::<Vec<MonHealth>>(doc, "mons")?;
        Some(ServiceHealth { mons })
    }
}

/// The health of the services.
#[derive(Debug, Clone, PartialEq, Eq)]
pub struct Health {
    pub health_services: Vec<ServiceHealth>,
}

impl Decode for Health {
    open spec fn decodable(doc: JsonView) -> bool {
        &&& doc is Object
        &&& Vec::<ServiceHealth>::decodable(member(doc, "health_services"@))
    }

    open spec fn decoded_from(&self, doc: JsonView) -> bool {
        &&& doc is Object
        &&& self.health_services.decoded_from(member(doc, "health_services"@))
    }

    fn decode(doc: &Json) -> (r: Option<Health>) {
        match doc {
            Json::Object(_) => {},
            _ => {
                return None;
            },
        }
        let health_services = field::<Vec<ServiceHealth>>(doc, "health_services")?;
        Some(Health { health_services })
    }
}

/// How far one monitor's clock is off.
#[derive(Debug, Clone, PartialEq, Eq)]
pub struct MonTimeChecks {
    pub name: String,
    pub skew: Real,
    pub latency: Real,
    pub health: HealthStatus,
}

impl Decode for MonTimeChecks {
    open spec fn decodable(doc: JsonView) -> bool {
        &&& doc is Object
        &&& String::decodable(member(doc, "name"@))
        &&& Real::decodable(member(doc, "skew"@))
        &&& Real::decodable(member(doc, "latency"@))
        &&& HealthStatus::decodable(member(doc, "health"@))
    }

    open spec fn decoded_from(&self, doc: JsonView) -> bool {
        &&& doc is Object
        &&& self.name.decoded_from(member(doc, "name"@))
        &&& self.skew.decoded_from(member(doc, "skew"@))
        &&& self.latency.decoded_from(member(doc, "latency"@))
        &&& self.health.decoded_from(member(doc, "health"@))
    }

    fn decode(doc: &Json) -> (r: Option<MonTimeChecks>) {
        match doc {
            Json::Object(_) => {},
            _ => {
                return None;
            },
        }
        let name = field::<String>(doc, "name")?;
        let skew = field::<Real>(doc, "skew")?;
        let latency = field::<Real>(doc, "latency")?;
        let health = field::<HealthStatus>(doc, "health")?;
        Some(MonTimeChecks { name, skew, latency, health })
    }
}

/// A round of time checks among the monitors.
#[derive(Debug, Clone, PartialEq, Eq)]
pub struct TimeChecks {
    pub epoch: u64,
    pub round: u64,
    pub round_status: RoundStatus,
    pub mons: Vec<MonTimeChecks>,
}

impl Decode for TimeChecks {
    open spec fn decodable(doc: JsonView) -> bool {
        &&& doc is Object
        &&& u64::decodable(member(doc, "epoch"@))
        &&& u64::decodable(member(doc, "round"@))
        &&& RoundStatus::decodable(member(doc, "round_status"@))
        &&& Vec::<MonTimeChecks>::decodable(member(doc, "mons"@))
    }

    open spec fn decoded_from(&self, doc: JsonView) -> bool {
        &&& doc is Object
        &&& self.epoch.decoded_from(member(doc, "epoch"@))
        &&& self.round.decoded_from(member(doc, "round"@))
        &&& self.round_status.decoded_from(member(doc, "round_status"@))
        &&& self.mons.decoded_from(member(doc, "mons"@))
    }

    fn decode(doc: &Json) -> (r: Option<TimeChecks>) {
        match doc {
            Json::Object(_) => {},
            _ => {
                return None;
            },
        }
        let epoch = field::<u64>(doc, "epoch")?;
        let round = field::<u64>(doc, "round")?;
        let round_status = field::<RoundStatus>(doc, "round_status")?;
        let mons = field::<Vec<MonTimeChecks>>(doc, "mons")?;
        Some(TimeChecks { epoch, round, round_status, mons })
    }
}

/// The health report of the cluster.
#[derive(Debug, Clone, PartialEq, Eq)]
pub struct ClusterHealth {
    pub health: Health,
    pub timechecks: TimeChecks,
    pub summary: Vec<String>,
    pub overall_status: HealthStatus,
    pub detail: Vec<String>,
}

impl Decode for ClusterHealth {
    open spec fn decodable(doc: JsonView) -> bool {
        &&& doc is Object
        &&& Health::decodable(member(doc, "health"@))
        &&& TimeChecks::decodable(member(doc, "timechecks"@))
        &&& Vec::<String>::decodable(member(doc, "summary"@))
        &&& HealthStatus::decodable(member(doc, "overall_status"@))
        &&& Vec::<String>::decodable(member(doc, "detail"@))
    }

    open spec fn decoded_from(&self, doc: JsonView) -> bool {
        &&& doc is Object
        &&& self.health.decoded_from(member(doc, "health"@))
        &&& self.timechecks.decoded_from(member(doc, "timechecks"@))
        &&& self.summary.decoded_from(member(doc, "summary"@))
        &&& self.overall_status.decoded_from(member(doc, "overall_status"@))
        &&& self.detail.decoded_from(member(doc, "detail"@))
    }

    fn decode(doc: &Json) -> (r: Option<ClusterHealth>) {
        match doc {
            Json::Object(_) => {},
            _ => {
                return None;
            },
        }
        let health = field::<Health>(doc, "health")?;
        let timechecks = field::<TimeChecks>(doc, "timechecks")?;
        let summary = field::<Vec<String>>(doc, "summary")?;
        let overall_status = field::<HealthStatus>(doc, "overall_status")?;
        let detail = field::<Vec<String>>(doc, "detail")?;
        Some(ClusterHealth { health, timechecks, summary, overall_status, detail })
    }
}

} // verus!
