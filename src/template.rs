use vstd::prelude::*;

use crate::ids::TemplateId;
use crate::text::texts;

verus! {

/// Why a template operation failed.
#[derive(Clone, Debug)]
pub enum TemplateStoreError {
    NotFound,
    AlreadyExists,
    TemplateParseFailed { reason: String },
    TooManyVersions,
}

/// One stored version of a template.
struct StoredVersion {
    bytes: Vec<u8>,
    exports: Vec<String>,
}

/// A template with all its versions, oldest first.
struct StoredTemplate {
    id: TemplateId,
    name: String,
    versions: Vec<StoredVersion>,
}

/// What is known of a template, in plain values.
pub ghost struct TemplateView {
    pub id: u128,
    pub name: Seq<char>,
    pub versions: Seq<Seq<u8>>,
    pub exports: Seq<Seq<Seq<char>>>,
}

/// A line of the template listing.
#[derive(Clone, Debug)]
pub struct TemplateSummary {
    pub id: TemplateId,
    pub name: String,
    pub latest_version: u64,
}

/// The immutable, versioned store of templates.
pub struct TemplateStore {
    templates: Vec<StoredTemplate>,
}

spec fn view_of(t: StoredTemplate) -> TemplateView {
    TemplateView {
        id: t.id.value,
        name: t.name@,
        versions: t.versions@.map_values(|v: StoredVersion| v.bytes@),
        exports: t.versions@.map_values(|v: StoredVersion| texts(v.exports@)),
    }
}

/// The position of the template with the given id, or -1.
pub open spec fn index_of(s: Seq<TemplateView>, id: u128) -> int
    decreases s.len(),
{
    if s.len() == 0 {
        -1
    } else if s.last().id == id {
        s.len() - 1
    } else {
        index_of(s.drop_last(), id)
    }
}

/// The version that holds exactly these bytes, or -1.
pub open spec fn version_index(versions: Seq<Seq<u8>>, bytes: Seq<u8>) -> int
    decreases versions.len(),
{
    if versions.len() == 0 {
        -1
    } else if versions.last() == bytes {
        versions.len() - 1
    } else {
        version_index(versions.drop_last(), bytes)
    }
}

/// Ids are distinct; each template has at least one version, no two versions of
/// a template hold the same bytes, and each version has its exports.
pub open spec fn store_wf(s: Seq<TemplateView>) -> bool {
    &&& forall|i: int, j: int| 0 <= i < j < s.len() ==> s[i].id != s[j].id
    &&& forall|i: int|
        0 <= i < s.len() ==> {
            &&& 1 <= s[i].versions.len() <= u64::MAX
            &&& s[i].exports.len() == s[i].versions.len()
            &&& forall|a: int, b: int|
                0 <= a < b < s[i].versions.len() ==> s[i].versions[a] != s[i].versions[b]
        }
}

/// The latest version of a template and its bytes.
pub open spec fn latest(s: Seq<TemplateView>, id: u128) -> Option<(u64, Seq<u8>)> {
    let i = index_of(s, id);
    if i < 0 {
        None
    } else {
        let n = s[i].versions.len();
        Some(((n - 1) as u64, s[i].versions[n - 1]))
    }
}

/// Adding a new template: its result and the store after it.
pub open spec fn added(
    s: Seq<TemplateView>,
    id: u128,
    name: Seq<char>,
    bytes: Seq<u8>,
    analysis: Result<Vec<String>, String>,
) -> (Result<u64, TemplateStoreError>, Seq<TemplateView>) {
    if index_of(s, id) >= 0 {
        (Err(TemplateStoreError::AlreadyExists), s)
    } else {
        match analysis {
            Err(reason) => (Err(TemplateStoreError::TemplateParseFailed { reason }), s),
            Ok(names) => (
                Ok(0),
                s.push(
                    TemplateView {
                        id,
                        name,
                        versions: seq![bytes],
                        exports: seq![texts(names@)],
                    },
                ),
            ),
        }
    }
}

/// Uploading bytes under an existing template, given what the component analysis
/// found in them: its result and the store after it. Bytes that the analysis
/// rejects fail; accepted bytes that a version already holds give that version
/// back and change nothing.
pub open spec fn updated(
    s: Seq<TemplateView>,
    id: u128,
    bytes: Seq<u8>,
    analysis: Result<Vec<String>, String>,
) -> (Result<u64, TemplateStoreError>, Seq<TemplateView>) {
    let i = index_of(s, id);
    if i < 0 {
        (Err(TemplateStoreError::NotFound), s)
    } else {
        let t = s[i];
        let j = version_index(t.versions, bytes);
        match analysis {
            Err(reason) => (Err(TemplateStoreError::TemplateParseFailed { reason }), s),
            Ok(names) => if j >= 0 {
                (Ok(j as u64), s)
            } else if t.versions.len() >= u64::MAX {
                (Err(TemplateStoreError::TooManyVersions), s)
            } else {
                (
                    Ok(t.versions.len() as u64),
                    s.update(
                        i,
                        TemplateView {
                            versions: t.versions.push(bytes),
                            exports: t.exports.push(texts(names@)),
                            ..t
                        },
                    ),
                )
            },
        }
    }
}

/// Whether `needle` occurs somewhere in `hay`.
pub open spec fn occurs_in(needle: Seq<char>, hay: Seq<char>) -> bool {
    exists|k: int|
        0 <= k && k + needle.len() <= hay.len() && #[trigger] hay.subrange(k, k + needle.len())
            == needle
}

/// Whether a template passes the optional name filter.
pub open spec fn passes(t: TemplateView, filter: Option<Seq<char>>) -> bool {
    match filter {
        None => true,
        Some(f) => occurs_in(f, t.name),
    }
}

/// The listing of the templates that pass the filter, in the order they were added:
/// id, name and latest version of each.
pub open spec fn listing(s: Seq<TemplateView>, filter: Option<Seq<char>>) -> Seq<
    (u128, Seq<char>, u64),
>
    decreases s.len(),
{
    if s.len() == 0 {
        Seq::empty()
    } else {
        let rest = listing(s.drop_last(), filter);
        let t = s.last();
        if passes(t, filter) {
            rest.push((t.id, t.name, (t.versions.len() - 1) as u64))
        } else {
            rest
        }
    }
}

/// The plain values of a listing.
pub open spec fn summaries(v: Seq<TemplateSummary>) -> Seq<(u128, Seq<char>, u64)> {
    v.map_values(|t: TemplateSummary| (t.id.value, t.name@, t.latest_version))
}

fn occurs(needle: &str, hay: &str) -> (r: bool)
    ensures
        r == occurs_in(needle@, hay@),
{
    let n = needle.unicode_len();
    let m = hay.unicode_len();
    if n > m {
        return false;
    }
    if n == 0 {
        assert(hay@.subrange(0, 0 + needle@.len() as int) =~= needle@);
        return true;
    }
    let mut k: usize = 0;
    while k <= m - n
        invariant
            n == needle@.len(),
            m == hay@.len(),
            1 <= n <= m,
            k <= m - n + 1,
            forall|x: int| 0 <= x < k ==> #[trigger] hay@.subrange(x, x + n) != needle@,
        decreases m - n + 1 - k,
    {
        let mut i: usize = 0;
        let mut same = true;
        while i < n
            invariant
                n == needle@.len(),
                m == hay@.len(),
                k + n <= m,
                i <= n,
                same ==> forall|j: int| 0 <= j < i ==> needle@[j] == hay@[k + j],
                !same ==> hay@.subrange(k as int, k + n) != needle@,
            decreases n - i,
        {
            if needle.get_char(i) != hay.get_char(k + i) {
                same = false;
                assert(hay@.subrange(k as int, k + n)[i as int] != needle@[i as int]);
            }
            i = i + 1;
        }
        if same {
            assert(hay@.subrange(k as int, k + n) =~= needle@);
            return true;
        }
        k = k + 1;
    }
    proof {
        assert forall|x: int| 0 <= x && x + n <= m implies #[trigger] hay@.subrange(x, x + n)
            != needle@ by {}
    }
    false
}

proof fn lemma_index_of(s: Seq<TemplateView>, id: u128)
    ensures
        -1 <= index_of(s, id) < s.len(),
        index_of(s, id) >= 0 ==> s[index_of(s, id)].id == id,
        index_of(s, id) < 0 ==> forall|k: int| 0 <= k < s.len() ==> s[k].id != id,
    decreases s.len(),
{
    if s.len() > 0 && s.last().id != id {
        lemma_index_of(s.drop_last(), id);
        assert forall|k: int| 0 <= k < s.len() - 1 implies s[k] == s.drop_last()[k] by {}
    }
}

proof fn lemma_index_unique(s: Seq<TemplateView>, id: u128, k: int)
    requires
        store_wf(s),
        0 <= k < s.len(),
        s[k].id == id,
    ensures
        index_of(s, id) == k,
{
    lemma_index_of(s, id);
}

proof fn lemma_version_index(v: Seq<Seq<u8>>, b: Seq<u8>)
    ensures
        -1 <= version_index(v, b) < v.len(),
        version_index(v, b) >= 0 ==> v[version_index(v, b)] == b,
        version_index(v, b) < 0 ==> forall|k: int| 0 <= k < v.len() ==> v[k] != b,
    decreases v.len(),
{
    if v.len() > 0 && v.last() != b {
        lemma_version_index(v.drop_last(), b);
        assert forall|k: int| 0 <= k < v.len() - 1 implies v[k] == v.drop_last()[k] by {}
    }
}

proof fn lemma_version_unique(v: Seq<Seq<u8>>, b: Seq<u8>, k: int)
    requires
        forall|a: int, c: int| 0 <= a < c < v.len() ==> v[a] != v[c],
        0 <= k < v.len(),
        v[k] == b,
    ensures
        version_index(v, b) == k,
{
    lemma_version_index(v, b);
}

fn same_bytes(a: &Vec<u8>, b: &Vec<u8>) -> (r: bool)
    ensures
        r == (a@ == b@),
{
    if a.len() != b.len() {
        return false;
    }
    let mut i: usize = 0;
    while i < a.len()
        invariant
            i <= a.len(),
            a.len() == b.len(),
            forall|j: int| 0 <= j < i ==> a@[j] == b@[j],
        decreases a.len() - i,
    {
        if a[i] != b[i] {
            return false;
        }
        i = i + 1;
    }
    assert(a@ =~= b@);
    true
}

impl View for TemplateStore {
    type V = Seq<TemplateView>;

    closed spec fn view(&self) -> Seq<TemplateView> {
        self.templates@.map_values(|t: StoredTemplate| view_of(t))
    }
}

impl TemplateStore {
    pub closed spec fn wf(&self) -> bool {
        store_wf(self@)
    }

    /// An empty store.
    pub fn new() -> (r: TemplateStore)
        ensures
            r.wf(),
            r@ == Seq::<TemplateView>::empty(),
    {
        let r = TemplateStore { templates: Vec::new() };
        assert(r@ =~= Seq::<TemplateView>::empty());
        r
    }

    fn position(&self, id: TemplateId) -> (r: Option<usize>)
        requires
            self.wf(),
        ensures
            r is None ==> index_of(self@, id.value) < 0,
            r matches Some(i) ==> i < self@.len() && index_of(self@, id.value) == i,
    {
        let mut i: usize = 0;
        while i < self.templates.len()
            invariant
                self.wf(),
                i <= self.templates@.len(),
                forall|k: int| 0 <= k < i ==> self@[k].id != id.value,
            decreases self.templates.len() - i,
        {
            if self.templates[i].id.value == id.value {
                proof {
                    lemma_index_unique(self@, id.value, i as int);
                }
                return Some(i);
            }
            i = i + 1;
        }
        proof {
            lemma_index_of(self@, id.value);
        }
        None
    }

    fn version_position(&self, i: usize, bytes: &Vec<u8>) -> (r: Option<usize>)
        requires
            self.wf(),
            i < self@.len(),
        ensures
            r is None ==> version_index(self@[i as int].versions, bytes@) < 0,
            r matches Some(j) ==> version_index(self@[i as int].versions, bytes@) == j,
    {
        let versions = &self.templates[i].versions;
        let ghost v = self@[i as int].versions;
        let mut j: usize = 0;
        while j < versions.len()
            invariant
                self.wf(),
                i < self@.len(),
                v == self@[i as int].versions,
                j <= versions@.len(),
                v.len() == versions@.len(),
                forall|k: int| 0 <= k < versions@.len() ==> v[k] == #[trigger] versions@[k].bytes@,
                forall|k: int| 0 <= k < j ==> v[k] != bytes@,
            decreases versions.len() - j,
        {
            if same_bytes(&versions[j].bytes, bytes) {
                proof {
                    lemma_version_unique(v, bytes@, j as int);
                }
                return Some(j);
            }
            j = j + 1;
        }
        proof {
            lemma_version_index(v, bytes@);
        }
        None
    }

    /// Adds a template whose bytes were analysed into `analysis`: a new template
    /// at version 0, unless the id is taken or the analysis failed.
    pub fn add(
        &mut self,
        id: TemplateId,
        name: &str,
        bytes: Vec<u8>,
        analysis: Result<Vec<String>, String>,
    ) -> (r: Result<u64, TemplateStoreError>)
        requires
            old(self).wf(),
        ensures
            final(self).wf(),
            (r, final(self)@) == added(old(self)@, id.value, name@, bytes@, analysis),
    {
        let ghost before = self@;
        let ghost b = bytes@;
        let ghost a = analysis;
        if self.position(id).is_some() {
            return Err(TemplateStoreError::AlreadyExists);
        }
        match analysis {
            Err(reason) => Err(TemplateStoreError::TemplateParseFailed { reason }),
            Ok(names) => {
                let mut versions: Vec<StoredVersion> = Vec::new();
                versions.push(StoredVersion { bytes, exports: names });
                let t = StoredTemplate { id, name: String::from_str(name), versions };
                self.templates.push(t);
                proof {
                    let want = added(before, id.value, name@, b, a).1;
                    lemma_index_of(before, id.value);
                    assert(view_of(t).versions =~= seq![b]);
                    assert(view_of(t).exports =~= want.last().exports);
                    assert(self@ =~= want);
                }
                Ok(0)
            },
        }
    }

    /// Uploads bytes under an existing template whose analysis is `analysis`. Bytes
    /// that the analysis rejects fail; accepted bytes that a version already holds
    /// give that version back; other accepted bytes become a new version, one above
    /// the latest.
    pub fn update(
        &mut self,
        id: TemplateId,
        bytes: Vec<u8>,
        analysis: Result<Vec<String>, String>,
    ) -> (r: Result<u64, TemplateStoreError>)
        requires
            old(self).wf(),
        ensures
            final(self).wf(),
            (r, final(self)@) == updated(old(self)@, id.value, bytes@, analysis),
    {
        let ghost before = self@;
        let ghost b = bytes@;
        let ghost a = analysis;
        let i = match self.position(id) {
            None => return Err(TemplateStoreError::NotFound),
            Some(i) => i,
        };
        match analysis {
            Err(reason) => Err(TemplateStoreError::TemplateParseFailed { reason }),
            Ok(names) => {
                if let Some(j) = self.version_position(i, &bytes) {
                    return Ok(j as u64);
                }
                if self.templates[i].versions.len() as u128 >= u64::MAX as u128 {
                    return Err(TemplateStoreError::TooManyVersions);
                }
                let mut t = self.templates.remove(i);
                let ghost old_t = t;
                let n = t.versions.len();
                t.versions.push(StoredVersion { bytes, exports: names });
                self.templates.insert(i, t);
                proof {
                    let want = updated(before, id.value, b, a).1;
                    let tv = before[i as int];
                    lemma_version_index(tv.versions, b);
                    assert(view_of(t).versions =~= tv.versions.push(b));
                    assert(view_of(t).exports =~= tv.exports.push(texts(names@)));
                    assert(self@ =~= want);
                    assert(store_wf(self@)) by {
                        assert forall|x: int, y: int|
                            0 <= x < y < view_of(t).versions.len() implies view_of(t).versions[x]
                            != view_of(t).versions[y] by {
                            if y == n {
                                assert(view_of(t).versions[x] == tv.versions[x]);
                            } else {
                                assert(view_of(t).versions[x] == tv.versions[x]);
                                assert(view_of(t).versions[y] == tv.versions[y]);
                            }
                        }
                        assert forall|x: int| 0 <= x < self@.len() && x != i implies self@[x]
                            == before[x] by {}
                    }
                }
                Ok(n as u64)
            },
        }
    }

    /// The templates whose name contains `name_filter` (all of them without a
    /// filter), in the order they were added, each with its latest version.
    pub fn find(&self, name_filter: Option<&str>) -> (r: Vec<TemplateSummary>)
        requires
            self.wf(),
        ensures
            summaries(r@) == listing(
                self@,
                match name_filter {
                    None => None,
                    Some(f) => Some(f@),
                },
            ),
    {
        let ghost filter = match name_filter {
            None => None,
            Some(f) => Some(f@),
        };
        let mut out: Vec<TemplateSummary> = Vec::new();
        let mut i: usize = 0;
        while i < self.templates.len()
            invariant
                self.wf(),
                i <= self.templates@.len(),
                filter == (match name_filter {
                    None => None,
                    Some(f) => Some(f@),
                }),
                summaries(out@) == listing(self@.subrange(0, i as int), filter),
            decreases self.templates.len() - i,
        {
            let t = &self.templates[i];
            let keep = match name_filter {
                None => true,
                Some(f) => occurs(f, t.name.as_str()),
            };
            let ghost before = out@;
            proof {
                assert(self@.subrange(0, i as int + 1).drop_last() =~= self@.subrange(0, i as int));
                assert(self@.subrange(0, i as int + 1).last() == self@[i as int]);
                assert(self@[i as int] == view_of(*t));
            }
            if keep {
                let n = t.versions.len();
                out.push(
                    TemplateSummary {
                        id: t.id,
                        name: t.name.clone(),
                        latest_version: (n - 1) as u64,
                    },
                );
                assert(summaries(out@) =~= summaries(before).push(
                    (t.id.value, t.name@, (n - 1) as u64),
                ));
            }
            i = i + 1;
        }
        assert(self@.subrange(0, i as int) =~= self@);
        out
    }

    /// The bytes of one version of a template.
    pub fn get(&self, id: TemplateId, version: u64) -> (r: Result<&Vec<u8>, TemplateStoreError>)
        requires
            self.wf(),
        ensures
            r is Ok <==> (index_of(self@, id.value) >= 0 && version < self@[index_of(
                self@,
                id.value,
            )].versions.len()),
            r matches Ok(b) ==> b@ == self@[index_of(self@, id.value)].versions[version as int],
            r matches Err(e) ==> e is NotFound,
    {
        match self.position(id) {
            None => Err(TemplateStoreError::NotFound),
            Some(i) => {
                let versions = &self.templates[i].versions;
                if version as u128 >= versions.len() as u128 {
                    Err(TemplateStoreError::NotFound)
                } else {
                    Ok(&versions[version as usize].bytes)
                }
            },
        }
    }

    /// The latest version of a template and its bytes.
    pub fn get_latest(&self, id: TemplateId) -> (r: Result<(u64, &Vec<u8>), TemplateStoreError>)
        requires
            self.wf(),
        ensures
            r is Ok <==> latest(self@, id.value) is Some,
            r matches Ok((v, b)) ==> latest(self@, id.value) == Some((v, b@)),
            r matches Err(e) ==> e is NotFound,
    {
        match self.position(id) {
            None => Err(TemplateStoreError::NotFound),
            Some(i) => {
                let versions = &self.templates[i].versions;
                let n = versions.len();
                Ok(((n - 1) as u64, &versions[n - 1].bytes))
            },
        }
    }

    /// The names of the top-level exports of one version of a template.
    pub fn exports(&self, id: TemplateId, version: u64) -> (r: Result<
        &Vec<String>,
        TemplateStoreError,
    >)
        requires
            self.wf(),
        ensures
            r is Ok <==> (index_of(self@, id.value) >= 0 && version < self@[index_of(
                self@,
                id.value,
            )].versions.len()),
            r matches Ok(names) ==> texts(names@) == self@[index_of(
                self@,
                id.value,
            )].exports[version as int],
            r matches Err(e) ==> e is NotFound,
    {
        match self.position(id) {
            None => Err(TemplateStoreError::NotFound),
            Some(i) => {
                let versions = &self.templates[i].versions;
                if version as u128 >= versions.len() as u128 {
                    Err(TemplateStoreError::NotFound)
                } else {
                    Ok(&versions[version as usize].exports)
                }
            },
        }
    }
}

/// Uploading bytes and then downloading the latest version gives the same bytes
/// back, whenever the bytes are accepted and no older version already holds them.
pub proof fn upload_then_latest_download(
    s: Seq<TemplateView>,
    id: u128,
    bytes: Seq<u8>,
    analysis: Result<Vec<String>, String>,
)
    requires
        store_wf(s),
        index_of(s, id) >= 0,
        ({
            let v = s[index_of(s, id)].versions;
            forall|k: int| 0 <= k < v.len() - 1 ==> v[k] != bytes
        }),
        updated(s, id, bytes, analysis).0 is Ok,
    ensures
        latest(updated(s, id, bytes, analysis).1, id) == Some(
            (updated(s, id, bytes, analysis).0.unwrap(), bytes),
        ),
{
    let i = index_of(s, id);
    lemma_index_of(s, id);
    lemma_version_index(s[i].versions, bytes);
    let after = updated(s, id, bytes, analysis).1;
    if after != s {
        assert(after[i].id == id);
        assert forall|x: int, y: int| 0 <= x < y < after.len() implies after[x].id
            != after[y].id by {}
        lemma_index_of(after, id);
        lemma_index_of(s, id);
        assert(index_of(after, id) == i) by {
            lemma_index_of(after, id);
            let k = index_of(after, id);
            if k != i {
                assert(after[k].id == s[k].id);
            }
        }
    }
}

/// An upload touches only its own template: every other template keeps its latest
/// version and bytes.
pub proof fn update_leaves_other_templates(
    s: Seq<TemplateView>,
    id: u128,
    other: u128,
    bytes: Seq<u8>,
    analysis: Result<Vec<String>, String>,
)
    requires
        store_wf(s),
        other != id,
    ensures
        latest(updated(s, id, bytes, analysis).1, other) == latest(s, other),
{
    let after = updated(s, id, bytes, analysis).1;
    lemma_index_of(s, id);
    lemma_index_of(s, other);
    lemma_index_of(after, other);
    if after != s {
        let i = index_of(s, id);
        assert(after.len() == s.len());
        assert forall|k: int| 0 <= k < s.len() implies after[k].id == s[k].id by {}
        let ko = index_of(s, other);
        let ka = index_of(after, other);
        if ko >= 0 {
            assert(ko != i);
            assert(after[ko].id == other);
            lemma_index_unique(s, other, ko);
            assert(ka == ko) by {
                if ka != ko && ka >= 0 {
                    assert(s[ka].id == other);
                }
            }
            assert(after[ko] == s[ko]);
        } else {
            assert(ka < 0) by {
                if ka >= 0 {
                    assert(s[ka].id == other);
                }
            }
        }
    }
}

/// Adding a template and then downloading its latest version gives the same bytes
/// back, at version 0, whenever the bytes are accepted.
pub proof fn add_then_latest_download(
    s: Seq<TemplateView>,
    id: u128,
    name: Seq<char>,
    bytes: Seq<u8>,
    analysis: Result<Vec<String>, String>,
)
    requires
        store_wf(s),
        added(s, id, name, bytes, analysis).0 is Ok,
    ensures
        latest(added(s, id, name, bytes, analysis).1, id) == Some((0u64, bytes)),
{
    let after = added(s, id, name, bytes, analysis).1;
    assert(after.drop_last() =~= s);
}

/// Bytes that are no valid component fail the upload with the analysis' reason, and
/// no version is created.
pub proof fn parse_failure_creates_no_version(
    s: Seq<TemplateView>,
    id: u128,
    name: Seq<char>,
    bytes: Seq<u8>,
    reason: String,
)
    ensures
        index_of(s, id) < 0 ==> added(s, id, name, bytes, Err(reason)) == (
            Err::<u64, _>(TemplateStoreError::TemplateParseFailed { reason }),
            s,
        ),
        index_of(s, id) >= 0 ==> updated(s, id, bytes, Err(reason)) == (
            Err::<u64, _>(TemplateStoreError::TemplateParseFailed { reason }),
            s,
        ),
{
}

} // verus!
