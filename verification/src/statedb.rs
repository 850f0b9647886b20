//! The state database service: the shape of its answers. The tree itself is
//! kept by a backend outside this library, which hands over what it read as
//! plain values.

use vstd::prelude::*;

verus! {

/// Four field elements, as their canonical integers.
#[derive(Clone, Copy, Debug, PartialEq, Eq, Structural)]
pub struct Fea {
    pub fe0: u64,
    pub fe1: u64,
    pub fe2: u64,
    pub fe3: u64,
}

/// The sibling hashes of one level of the tree.
#[derive(Clone, Debug, PartialEq, Eq)]
pub struct SiblingList {
    pub sibling: Vec<u64>,
}

/// How a query ended.
#[derive(Clone, Copy, Debug, PartialEq, Eq, Structural)]
pub enum Code {
    Unspecified,
    Success,
    DbKeyNotFound,
    DbError,
    InternalError,
}

#[derive(Clone, Copy, Debug, PartialEq, Eq, Structural)]
pub struct ResultCode {
    pub code: Code,
}

#[derive(Clone, Debug, PartialEq, Eq)]
pub struct GetRequest {
    pub root: Option<Fea>,
    pub key: Option<Fea>,
    pub details: bool,
    pub get_db_read_log: bool,
}

/// What the tree gives for one key: the root and key that were asked for,
/// the siblings on the path by level, the key and value found in the key's
/// place, and the value, the big integers written in decimal. The siblings
/// are a map from levels: in a value that is well-formed each level occurs
/// once.
#[derive(Clone, Debug, PartialEq, Eq)]
pub struct SmtGetResult {
    pub root: [u64; 4],
    pub key: [u64; 4],
    pub siblings: Vec<(i64, Vec<u64>)>,
    pub ins_key: [u64; 4],
    pub ins_value: String,
    pub is_old0: bool,
    pub value: String,
    pub proof_hash_counter: u64,
}

#[derive(Clone, Debug, PartialEq, Eq)]
pub struct GetResponse {
    pub root: Option<Fea>,
    pub key: Option<Fea>,
    pub siblings: Vec<(u64, SiblingList)>,
    pub ins_key: Option<Fea>,
    pub ins_value: String,
    pub is_old0: bool,
    pub value: String,
    pub proof_hash_counter: u64,
    pub db_read_log: Vec<(String, Vec<u64>)>,
    pub result: Option<ResultCode>,
}

/// The four elements of a scalar, in order.
pub open spec fn fea_of(sca: [u64; 4]) -> Fea {
    Fea { fe0: sca[0], fe1: sca[1], fe2: sca[2], fe3: sca[3] }
}

/// A level as the key of a response's sibling map: the level itself, and
/// for a negative level the number that has the same 64 bits.
pub open spec fn level_key(level: i64) -> u64 {
    if level >= 0 {
        level as u64
    } else {
        (level + 0x1_0000_0000_0000_0000) as u64
    }
}

/// Whether each level occurs once among the siblings that the tree gave.
pub open spec fn levels_distinct(siblings: Seq<(i64, Vec<u64>)>) -> bool {
    forall|i: int, j: int|
        0 <= i < j < siblings.len() ==> (#[trigger] siblings[i]).0 != (#[trigger] siblings[j]).0
}

/// Whether each key occurs once among the siblings of a response.
pub open spec fn keys_distinct(siblings: Seq<(u64, SiblingList)>) -> bool {
    forall|i: int, j: int|
        0 <= i < j < siblings.len() ==> (#[trigger] siblings[i]).0 != (#[trigger] siblings[j]).0
}

impl SmtGetResult {
    /// The siblings are a map: each level occurs once.
    pub open spec fn wf(self) -> bool {
        levels_distinct(self.siblings@)
    }
}

impl GetResponse {
    /// The siblings are a map: each key occurs once.
    pub open spec fn wf(self) -> bool {
        keys_distinct(self.siblings@)
    }
}

/// The answer to a query that read `r`. The siblings keep their order, each
/// under the key of its level, so that the answer's siblings are a map
/// where the tree's are.
pub open spec fn is_get_response(resp: GetResponse, r: SmtGetResult) -> bool {
    &&& r.wf() ==> resp.wf()
    &&& resp.root == Some(fea_of(r.root))
    &&& resp.key == Some(fea_of(r.key))
    &&& resp.siblings@.len() == r.siblings@.len()
    &&& forall|i: int|
        0 <= i < r.siblings@.len() ==> {
            &&& (#[trigger] resp.siblings@[i]).0 == level_key(r.siblings@[i].0)
            &&& resp.siblings@[i].1.sibling@ == r.siblings@[i].1@
        }
    &&& resp.ins_key == Some(fea_of(r.ins_key))
    &&& resp.ins_value@ == r.ins_value@
    &&& resp.is_old0 == r.is_old0
    &&& resp.value@ == r.value@
    &&& resp.proof_hash_counter == r.proof_hash_counter
    &&& resp.db_read_log@.len() == 0
    &&& resp.result == Some(ResultCode { code: Code::Success })
}

/// The scalar that four field elements stand for.
pub fn fea_to_fr(fea: &Fea) -> (sca: [u64; 4])
    ensures
        fea_of(sca) == *fea,
{
    [fea.fe0, fea.fe1, fea.fe2, fea.fe3]
}

/// The four elements of a scalar.
pub fn fr_to_fea(sca: &[u64; 4]) -> (fea: Fea)
    ensures
        fea == fea_of(*sca),
{
    Fea { fe0: sca[0], fe1: sca[1], fe2: sca[2], fe3: sca[3] }
}

/// Different levels have different keys.
pub proof fn lemma_level_key_injective(a: i64, b: i64)
    requires
        level_key(a) == level_key(b),
    ensures
        a == b,
{
}

/// The key of a level in a response's sibling map.
pub fn level_to_key(level: i64) -> (key: u64)
    ensures
        key == level_key(level),
{
    if level >= 0 {
        level as u64
    } else {
        let below: u64 = (-(level + 1)) as u64;
        u64::MAX - below
    }
}

fn copy_hashes(hashes: &Vec<u64>) -> (copy: Vec<u64>)
    ensures
        copy@ == hashes@,
{
    let mut copy: Vec<u64> = Vec::new();
    let mut i: usize = 0;
    while i < hashes.len()
        invariant
            i <= hashes@.len(),
            copy@ == hashes@.take(i as int),
        decreases hashes@.len() - i,
    {
        copy.push(hashes[i]);
        assert(copy@ =~= hashes@.take(i + 1));
        i += 1;
    }
    assert(hashes@.take(hashes@.len() as int) =~= hashes@);
    copy
}

/// Shapes what the tree gave into the answer to a query.
pub fn smt_get_result_to_proto(r: &SmtGetResult) -> (resp: GetResponse)
    ensures
        is_get_response(resp, *r),
{
    let mut sib: Vec<(u64, SiblingList)> = Vec::new();
    let mut i: usize = 0;
    while i < r.siblings.len()
        invariant
            i <= r.siblings@.len(),
            sib@.len() == i,
            forall|j: int|
                0 <= j < i ==> {
                    &&& (#[trigger] sib@[j]).0 == level_key(r.siblings@[j].0)
                    &&& sib@[j].1.sibling@ == r.siblings@[j].1@
                },
        decreases r.siblings@.len() - i,
    {
        let rk = level_to_key(r.siblings[i].0);
        let sl = copy_hashes(&r.siblings[i].1);
        sib.push((rk, SiblingList { sibling: sl }));
        i += 1;
    }
    proof {
        if r.wf() {
            assert forall|a: int, b: int| 0 <= a < b < sib@.len() implies (#[trigger] sib@[a]).0 != (
            #[trigger] sib@[b]).0 by {
                if sib@[a].0 == sib@[b].0 {
                    lemma_level_key_injective(r.siblings@[a].0, r.siblings@[b].0);
                }
            }
        }
    }
    GetResponse {
        root: Some(fr_to_fea(&r.root)),
        key: Some(fr_to_fea(&r.key)),
        siblings: sib,
        ins_key: Some(fr_to_fea(&r.ins_key)),
        ins_value: r.ins_value.clone(),
        is_old0: r.is_old0,
        value: r.value.clone(),
        proof_hash_counter: r.proof_hash_counter,
        db_read_log: Vec::new(),
        result: Some(ResultCode { code: Code::Success }),
    }
}

/// The service that answers queries on the state tree kept at one address.
#[derive(Debug)]
pub struct StateDBServiceSVC {
    url: String,
}

impl StateDBServiceSVC {
    /// The address of the database.
    pub closed spec fn spec_url(&self) -> Seq<char> {
        self.url@
    }

    pub fn new(url: String) -> (svc: Self)
        ensures
            svc.spec_url() == url@,
    {
        StateDBServiceSVC { url }
    }

    /// The address of the database.
    pub fn url(&self) -> (url: &String)
        ensures
            url@ == self.spec_url(),
    {
        &self.url
    }

    /// The root and the key that a query asks for, as scalars, if the query
    /// names both.
    pub fn get_query(&self, request: &GetRequest) -> (query: Option<([u64; 4], [u64; 4])>)
        ensures
            match query {
                Some((root, key)) => request.root == Some(fea_of(root)) && request.key == Some(
                    fea_of(key),
                ),
                None => request.root is None || request.key is None,
            },
    {
        match (&request.root, &request.key) {
            (Some(root), Some(key)) => Some((fea_to_fr(root), fea_to_fr(key))),
            _ => None,
        }
    }

    /// The answer to a query, from what the tree gave for it.
    pub fn get(&self, r: &SmtGetResult) -> (resp: GetResponse)
        ensures
            is_get_response(resp, *r),
    {
        smt_get_result_to_proto(r)
    }
}

} // verus!
