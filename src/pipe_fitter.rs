//! The fabric: builds one endpoint per configuration entry and wires every
//! endpoint to the inbound queue of every other one.
use vstd::prelude::*;

use crate::client::{built_from, Client, InboundHandle};
use crate::config::{ClientConfig, PipeFitterConfig};
use crate::errors::FitterErrorKind;

verus! {

/// Whether a character belongs to the alphabet of generated ids.
pub open spec fn is_id_char(c: char) -> bool {
    ('a' <= c && c <= 'z') || ('A' <= c && c <= 'Z') || ('0' <= c && c <= '9') || c == '_' || c
        == '-'
}

/// Relies on nanoid::format with nanoid's URL-safe alphabet and length 21, as the
/// crate's default id does: a random id of 21 characters of that alphabet.
#[verifier::external_body]
fn fresh_id() -> (r: String)
    ensures
        r@.len() == 21,
        forall|k: int| 0 <= k < r@.len() ==> is_id_char(#[trigger] r@[k]),
{
    nanoid::format(nanoid::rngs::default, &nanoid::alphabet::SAFE, 21)
}

/// The ids of a sequence of strings.
pub open spec fn ids_view(ids: Seq<String>) -> Seq<Seq<char>> {
    ids.map_values(|s: String| s@)
}

/// Whether no id occurs twice.
pub open spec fn ids_distinct(ids: Seq<Seq<char>>) -> bool {
    forall|a: int, b: int| 0 <= a < ids.len() && 0 <= b < ids.len() && a != b ==> ids[a] != ids[b]
}

/// The ids among the first `j` of `ids` but the one at `i`, in order.
pub open spec fn others(ids: Seq<Seq<char>>, i: int, j: int) -> Seq<Seq<char>>
    decreases j,
{
    if j <= 0 {
        Seq::empty()
    } else {
        others(ids, i, j - 1) + if j - 1 == i {
            Seq::<Seq<char>>::empty()
        } else {
            seq![ids[j - 1]]
        }
    }
}

/// The outbound targets of the endpoint at `i` in a full mesh: every other
/// endpoint's id, in order.
pub open spec fn mesh_targets(ids: Seq<Seq<char>>, i: int) -> Seq<Seq<char>> {
    others(ids, i, ids.len() as int)
}

/// The relay: a fixed set of endpoints.
#[derive(Debug)]
pub struct PipeFitter {
    clients: Vec<Client>,
}

impl PipeFitter {
    /// The endpoints, in configuration order.
    pub closed spec fn spec_clients(&self) -> Seq<Client> {
        self.clients@
    }

    /// The endpoints' ids, in order.
    pub open spec fn spec_ids(&self) -> Seq<Seq<char>> {
        self.spec_clients().map_values(|c: Client| c.spec_id())
    }

    /// Whether the endpoints form a full mesh: ids unique, and every endpoint
    /// forwards to every other one, in order.
    pub open spec fn wired(&self) -> bool {
        &&& ids_distinct(self.spec_ids())
        &&& forall|i: int|
            0 <= i < self.spec_clients().len() ==> #[trigger] self.spec_clients()[i].spec_outbound()
                == mesh_targets(self.spec_ids(), i)
    }

    /// Whether the fabric holds the endpoints that `entries` describe under `ids`,
    /// fully wired and none yet running.
    pub open spec fn built_with(&self, entries: Seq<ClientConfig>, ids: Seq<Seq<char>>) -> bool {
        &&& self.spec_clients().len() == entries.len()
        &&& self.spec_ids() == ids
        &&& self.wired()
        &&& forall|i: int|
            0 <= i < entries.len() ==> built_from(
                #[trigger] self.spec_clients()[i],
                ids[i],
                entries[i],
            ) && !self.spec_clients()[i].spec_running()
    }

    /// The number of endpoints.
    pub fn len(&self) -> (r: usize)
        ensures
            r == self.spec_clients().len(),
    {
        self.clients.len()
    }

    /// The endpoints, in configuration order.
    pub fn clients(&self) -> (r: &Vec<Client>)
        ensures
            r@ == self.spec_clients(),
    {
        &self.clients
    }

    /// Hands the endpoints over, to be run.
    pub fn into_clients(self) -> (r: Vec<Client>)
        ensures
            r@ == self.spec_clients(),
    {
        self.clients
    }
}

/// Whether no two of the ids are equal.
pub fn ids_unique(ids: &Vec<String>) -> (r: bool)
    ensures
        r == ids_distinct(ids_view(ids@)),
{
    let ghost v = ids_view(ids@);
    let n = ids.len();
    let mut a: usize = 0;
    while a < n
        invariant
            n == ids@.len(),
            v == ids_view(ids@),
            a <= n,
            forall|x: int, y: int| 0 <= x < a && x < y < n ==> v[x] != v[y],
        decreases n - a,
    {
        let mut b: usize = a + 1;
        while b < n
            invariant
                n == ids@.len(),
                v == ids_view(ids@),
                a < n,
                a < b <= n,
                forall|x: int, y: int| 0 <= x < a && x < y < n ==> v[x] != v[y],
                forall|y: int| a < y < b ==> v[a as int] != v[y],
            decreases n - b,
        {
            if ids[a] == ids[b] {
                assert(v[a as int] == v[b as int]);
                return false;
            }
            b = b + 1;
        }
        a = a + 1;
    }
    assert forall|x: int, y: int| 0 <= x < v.len() && 0 <= y < v.len() && x != y implies v[x]
        != v[y] by {
        if x > y {
            assert(v[y] != v[x]);
        }
    }
    true
}

impl PipeFitter {
    /// Builds the relay from its configuration under the given ids, one id per
    /// entry: one endpoint per entry, in order, then every endpoint wired to the
    /// inbound queue of every other one. Fails when two ids are equal.
    pub fn assemble(config: PipeFitterConfig, ids: Vec<String>) -> (r: Result<
        PipeFitter,
        FitterErrorKind,
    >)
        requires
            ids@.len() == config.entries().len(),
        ensures
            match r {
                Ok(f) => f.built_with(config.entries(), ids_view(ids@)),
                Err(e) => !ids_distinct(ids_view(ids@)) && e is GenericErr,
            },
    {
        if !ids_unique(&ids) {
            return Err(FitterErrorKind::GenericErr(String::from_str("Duplicate client id")));
        }
        let ghost entries = config.entries();
        let ghost idsv = ids_view(ids@);
        let n = config.len();
        let mut pending = config.into_entries();
        let mut built: Vec<Client> = Vec::new();
        let mut i: usize = 0;
        while i < n
            invariant
                n == entries.len(),
                n == ids@.len(),
                idsv == ids_view(ids@),
                i <= n,
                pending@ == entries.skip(i as int),
                built@.len() == i,
                forall|k: int|
                    0 <= k < i ==> built_from(#[trigger] built@[k], idsv[k], entries[k])
                        && built@[k].spec_outbound().len() == 0 && !built@[k].spec_running(),
            decreases n - i,
        {
            assert(pending@[0] == entries[i as int]);
            let entry = pending.remove(0);
            assert(pending@ =~= entries.skip(i + 1));
            let c = match ClientConfig::from_config(ids[i].clone(), entry) {
                Ok(c) => c,
                Err(e) => return Err(e),
            };
            built.push(c);
            i = i + 1;
        }
        let mut handles: Vec<InboundHandle> = Vec::new();
        let mut j: usize = 0;
        while j < n
            invariant
                n == built@.len(),
                j <= n,
                handles@.len() == j,
                forall|k: int| 0 <= k < n ==> !(#[trigger] built@[k]).spec_running(),
                forall|k: int| 0 <= k < j ==> (#[trigger] handles@[k])@ == built@[k].spec_id(),
            decreases n - j,
        {
            let h = match built[j].get_stream() {
                Ok(h) => h,
                Err(e) => return Err(e),
            };
            handles.push(h);
            j = j + 1;
        }
        let ghost unwired = built@;
        let mut wired: Vec<Client> = Vec::new();
        let mut i: usize = 0;
        while i < n
            invariant
                n == entries.len(),
                n == unwired.len(),
                n == handles@.len(),
                n == idsv.len(),
                ids_distinct(idsv),
                i <= n,
                built@ == unwired.skip(i as int),
                wired@.len() == i,
                forall|k: int| 0 <= k < n ==> (#[trigger] handles@[k])@ == idsv[k],
                forall|k: int|
                    0 <= k < n ==> built_from(#[trigger] unwired[k], idsv[k], entries[k])
                        && unwired[k].spec_outbound().len() == 0 && !unwired[k].spec_running(),
                forall|k: int|
                    0 <= k < i ==> built_from(#[trigger] wired@[k], idsv[k], entries[k])
                        && wired@[k].spec_outbound() == mesh_targets(idsv, k)
                        && !wired@[k].spec_running(),
            decreases n - i,
        {
            assert(built@[0] == unwired[i as int]);
            let mut c = built.remove(0);
            assert(built@ =~= unwired.skip(i + 1));
            assert(c.spec_outbound() =~= others(idsv, i as int, 0));
            let mut j: usize = 0;
            while j < n
                invariant
                    n == handles@.len(),
                    n == idsv.len(),
                    i < n,
                    j <= n,
                    forall|k: int| 0 <= k < n ==> (#[trigger] handles@[k])@ == idsv[k],
                    built_from(c, idsv[i as int], entries[i as int]),
                    !c.spec_running(),
                    c.spec_outbound() == others(idsv, i as int, j as int),
                decreases n - j,
            {
                if j != i {
                    let r = c.add_stream(handles[j].duplicate());
                    assert(r is Ok);
                    assert(c.spec_outbound() =~= others(idsv, i as int, j + 1));
                } else {
                    assert(others(idsv, i as int, j + 1) =~= others(idsv, i as int, j as int));
                }
                j = j + 1;
            }
            wired.push(c);
            i = i + 1;
        }
        let f = PipeFitter { clients: wired };
        assert(f.spec_ids() =~= idsv);
        Ok(f)
    }

    /// Builds the relay from its configuration, each endpoint under a freshly
    /// generated random id, and wires it into a full mesh. Fails, as a whole,
    /// when two generated ids collide.
    pub fn from_config(config: PipeFitterConfig) -> (r: Result<PipeFitter, FitterErrorKind>)
        ensures
            match r {
                Ok(f) => f.built_with(config.entries(), f.spec_ids()) && forall|i: int|
                    0 <= i < f.spec_ids().len() ==> (#[trigger] f.spec_ids()[i]).len() == 21,
                Err(e) => e is GenericErr && config.entries().len() >= 2,
            },
    {
        let n = config.len();
        let mut ids: Vec<String> = Vec::new();
        let mut i: usize = 0;
        while i < n
            invariant
                n == config.entries().len(),
                i <= n,
                ids@.len() == i,
                forall|k: int| 0 <= k < i ==> (#[trigger] ids@[k])@.len() == 21,
            decreases n - i,
        {
            ids.push(fresh_id());
            i = i + 1;
        }
        let ghost idsv = ids_view(ids@);
        let r = PipeFitter::assemble(config, ids);
        proof {
            if r is Ok {
                let f = r->Ok_0;
                assert forall|k: int| 0 <= k < f.spec_ids().len() implies (#[trigger] f.spec_ids()[
                    k]).len() == 21 by {
                    assert(f.spec_ids()[k] == idsv[k]);
                }
            }
        }
        r
    }
}

/// How many ids `others` keeps, and that it keeps only ids found at other
/// positions.
proof fn lemma_others(ids: Seq<Seq<char>>, i: int, j: int)
    requires
        0 <= i,
        0 <= j <= ids.len(),
    ensures
        others(ids, i, j).len() == if i < j {
            j - 1
        } else {
            j
        },
        forall|x: Seq<char>|
            #[trigger] others(ids, i, j).contains(x) ==> exists|k: int|
                0 <= k < j && k != i && ids[k] == x,
    decreases j,
{
    if j > 0 {
        lemma_others(ids, i, j - 1);
        let prev = others(ids, i, j - 1);
        let tail = if j - 1 == i {
            Seq::<Seq<char>>::empty()
        } else {
            seq![ids[j - 1]]
        };
        assert forall|x: Seq<char>| #[trigger] others(ids, i, j).contains(x) implies exists|k: int|
            0 <= k < j && k != i && ids[k] == x by {
            let p = choose|p: int| 0 <= p < others(ids, i, j).len() && others(ids, i, j)[p] == x;
            if p < prev.len() {
                assert(prev[p] == x);
                assert(prev.contains(x));
            } else {
                assert(tail[p - prev.len()] == x);
                assert(ids[j - 1] == x);
            }
        }
    }
}

/// Full mesh: in a wired relay of `n` endpoints every endpoint has exactly
/// `n - 1` outbound targets, and its own id is not among them.
pub proof fn lemma_full_mesh(f: &PipeFitter, i: int)
    requires
        f.wired(),
        0 <= i < f.spec_clients().len(),
    ensures
        f.spec_clients()[i].spec_outbound().len() == f.spec_clients().len() - 1,
        !f.spec_clients()[i].spec_outbound().contains(f.spec_clients()[i].spec_id()),
{
    let ids = f.spec_ids();
    assert(f.spec_clients()[i].spec_outbound() == mesh_targets(ids, i));
    lemma_others(ids, i, ids.len() as int);
    assert(ids[i] == f.spec_clients()[i].spec_id());
    if mesh_targets(ids, i).contains(ids[i]) {
        let k = choose|k: int| 0 <= k < ids.len() && k != i && ids[k] == ids[i];
        assert(ids[k] != ids[i]);
    }
}

} // verus!
