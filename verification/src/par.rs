//! Closed Rholang processes, as far as a system process looks into them.
use vstd::prelude::*;

verus! {

/// A process: what stands in parallel, kind by kind.
///
/// The system processes read expressions, unforgeable names and bundles.
/// Every other part is carried through unread, each as the bytes that
/// encode a process which holds that part alone.
#[derive(Debug, PartialEq, Eq)]
pub struct Par {
    /// Sends, receives, `new` blocks and matches, encoded.
    pub processes: Vec<Vec<u8>>,
    pub exprs: Vec<Expr>,
    pub unforgeables: Vec<GUnforgeable>,
    pub bundles: Vec<Bundle>,
    /// Logical connectives, encoded.
    pub connectives: Vec<Vec<u8>>,
}

/// An expression. One that no system process reads is kept encoded.
#[derive(Debug, PartialEq, Eq)]
pub enum Expr {
    GBool(bool),
    GInt(i64),
    GString(String),
    GUri(String),
    GByteArray(Vec<u8>),
    EListBody(Vec<Par>),
    ETupleBody(Vec<Par>),
    EMapBody(Vec<KeyValuePair>),
    Other(Vec<u8>),
}

/// An entry of a map.
#[derive(Debug, PartialEq, Eq)]
pub struct KeyValuePair {
    pub key: Par,
    pub value: Par,
}

/// An unforgeable name.
#[derive(Debug, PartialEq, Eq)]
pub enum GUnforgeable {
    GPrivateBody(GPrivate),
    GDeployIdBody(Vec<u8>),
    GDeployerIdBody(Vec<u8>),
    GSysAuthTokenBody,
}

/// A private name.
#[derive(Debug, PartialEq, Eq)]
pub struct GPrivate {
    pub id: Vec<u8>,
}

/// A process with its read and write capabilities restricted.
#[derive(Debug, PartialEq, Eq)]
pub struct Bundle {
    pub body: Par,
    pub write_flag: bool,
    pub read_flag: bool,
}

#[verifier::ext_equal]
pub struct ParView {
    pub processes: Seq<Seq<u8>>,
    pub exprs: Seq<ExprView>,
    pub unforgeables: Seq<UnforgeableView>,
    pub bundles: Seq<BundleView>,
    pub connectives: Seq<Seq<u8>>,
}

#[verifier::ext_equal]
pub enum ExprView {
    GBool(bool),
    GInt(i64),
    GString(Seq<char>),
    GUri(Seq<char>),
    GByteArray(Seq<u8>),
    EListBody(Seq<ParView>),
    ETupleBody(Seq<ParView>),
    EMapBody(Seq<(ParView, ParView)>),
    Other(Seq<u8>),
}

#[verifier::ext_equal]
pub enum UnforgeableView {
    GPrivateBody(Seq<u8>),
    GDeployIdBody(Seq<u8>),
    GDeployerIdBody(Seq<u8>),
    GSysAuthTokenBody,
}

#[verifier::ext_equal]
pub struct BundleView {
    pub body: ParView,
    pub write_flag: bool,
    pub read_flag: bool,
}

pub open spec fn bytes_views(s: Seq<Vec<u8>>) -> Seq<Seq<u8>> {
    Seq::new(s.len(), |i: int| s[i]@)
}

pub open spec fn pars_view(s: Seq<Par>) -> Seq<ParView>
    decreases s,
{
    Seq::new(
        s.len(),
        |i: int|
            if 0 <= i < s.len() {
                s[i].view()
            } else {
                arbitrary()
            },
    )
}

pub open spec fn exprs_view(s: Seq<Expr>) -> Seq<ExprView>
    decreases s,
{
    Seq::new(
        s.len(),
        |i: int|
            if 0 <= i < s.len() {
                s[i].view()
            } else {
                arbitrary()
            },
    )
}

pub open spec fn entries_view(s: Seq<KeyValuePair>) -> Seq<(ParView, ParView)>
    decreases s,
{
    Seq::new(
        s.len(),
        |i: int|
            if 0 <= i < s.len() {
                s[i].view()
            } else {
                arbitrary()
            },
    )
}

pub open spec fn unforgeables_view(s: Seq<GUnforgeable>) -> Seq<UnforgeableView> {
    Seq::new(s.len(), |i: int| s[i].view())
}

pub open spec fn bundles_view(s: Seq<Bundle>) -> Seq<BundleView>
    decreases s,
{
    Seq::new(
        s.len(),
        |i: int|
            if 0 <= i < s.len() {
                s[i].view()
            } else {
                arbitrary()
            },
    )
}

impl View for Par {
    type V = ParView;

    open spec fn view(&self) -> ParView
        decreases self,
    {
        ParView {
            processes: bytes_views(self.processes@),
            exprs: exprs_view(self.exprs@),
            unforgeables: unforgeables_view(self.unforgeables@),
            bundles: bundles_view(self.bundles@),
            connectives: bytes_views(self.connectives@),
        }
    }
}

impl View for Expr {
    type V = ExprView;

    open spec fn view(&self) -> ExprView
        decreases self,
    {
        match self {
            Expr::GBool(b) => ExprView::GBool(*b),
            Expr::GInt(n) => ExprView::GInt(*n),
            Expr::GString(s) => ExprView::GString(s@),
            Expr::GUri(s) => ExprView::GUri(s@),
            Expr::GByteArray(b) => ExprView::GByteArray(b@),
            Expr::EListBody(ps) => ExprView::EListBody(pars_view(ps@)),
            Expr::ETupleBody(ps) => ExprView::ETupleBody(pars_view(ps@)),
            Expr::EMapBody(kvs) => ExprView::EMapBody(entries_view(kvs@)),
            Expr::Other(b) => ExprView::Other(b@),
        }
    }
}

impl View for KeyValuePair {
    type V = (ParView, ParView);

    open spec fn view(&self) -> (ParView, ParView)
        decreases self,
    {
        (self.key.view(), self.value.view())
    }
}

impl View for GUnforgeable {
    type V = UnforgeableView;

    open spec fn view(&self) -> UnforgeableView {
        match self {
            GUnforgeable::GPrivateBody(p) => UnforgeableView::GPrivateBody(p.id@),
            GUnforgeable::GDeployIdBody(b) => UnforgeableView::GDeployIdBody(b@),
            GUnforgeable::GDeployerIdBody(b) => UnforgeableView::GDeployerIdBody(b@),
            GUnforgeable::GSysAuthTokenBody => UnforgeableView::GSysAuthTokenBody,
        }
    }
}

impl View for Bundle {
    type V = BundleView;

    open spec fn view(&self) -> BundleView
        decreases self,
    {
        BundleView {
            body: self.body.view(),
            write_flag: self.write_flag,
            read_flag: self.read_flag,
        }
    }
}

/// A process and its model have the same parts, one for one.
pub proof fn lemma_parts(p: &Par)
    ensures
        p@.processes.len() == p.processes.len(),
        p@.exprs.len() == p.exprs.len(),
        forall|i: int| 0 <= i < p.exprs.len() ==> #[trigger] p@.exprs[i] == p.exprs[i]@,
        p@.unforgeables.len() == p.unforgeables.len(),
        forall|i: int|
            0 <= i < p.unforgeables.len() ==> #[trigger] p@.unforgeables[i] == p.unforgeables[i]@,
        p@.bundles.len() == p.bundles.len(),
        forall|i: int| 0 <= i < p.bundles.len() ==> #[trigger] p@.bundles[i] == p.bundles[i]@,
        p@.connectives.len() == p.connectives.len(),
{
    let es = exprs_view(p.exprs@);
    let bs = bundles_view(p.bundles@);
    assert(p@.exprs == es && p@.bundles == bs);
    assert(es.len() == p.exprs.len() && bs.len() == p.bundles.len());
}

/// Processes with the same parts are the same.
pub proof fn lemma_same_parts(a: ParView, b: ParView)
    requires
        a.processes =~= b.processes,
        a.exprs =~= b.exprs,
        a.unforgeables =~= b.unforgeables,
        a.bundles =~= b.bundles,
        a.connectives =~= b.connectives,
    ensures
        a == b,
{
}

/// A copy of a byte string.
pub fn copy_bytes(b: &Vec<u8>) -> (r: Vec<u8>)
    ensures
        r@ == b@,
{
    let r = b.clone();
    assert(r@ =~= b@);
    r
}

fn copy_byte_strings(v: &Vec<Vec<u8>>) -> (r: Vec<Vec<u8>>)
    ensures
        bytes_views(r@) == bytes_views(v@),
{
    let mut r: Vec<Vec<u8>> = Vec::new();
    let n: usize = v.len();
    for i in 0..n
        invariant
            n == v.len(),
            r.len() == i,
            forall|j: int| 0 <= j < i ==> (#[trigger] r@[j])@ == v@[j]@,
    {
        r.push(copy_bytes(&v[i]));
    }
    assert(bytes_views(r@) =~= bytes_views(v@));
    r
}

/// Copies of processes, in their order.
pub fn copy_pars(v: &Vec<Par>) -> (r: Vec<Par>)
    ensures
        pars_view(r@) == pars_view(v@),
    decreases v,
{
    let mut r: Vec<Par> = Vec::new();
    let n: usize = v.len();
    for i in 0..n
        invariant
            n == v.len(),
            r.len() == i,
            forall|j: int| 0 <= j < i ==> (#[trigger] r@[j])@ == v@[j]@,
    {
        proof {
            assert(decreases_to!(v => v@[i as int]));
        }
        r.push(v[i].clone());
    }
    assert(pars_view(r@) =~= pars_view(v@));
    r
}

fn copy_exprs(v: &Vec<Expr>) -> (r: Vec<Expr>)
    ensures
        exprs_view(r@) == exprs_view(v@),
    decreases v,
{
    let mut r: Vec<Expr> = Vec::new();
    let n: usize = v.len();
    for i in 0..n
        invariant
            n == v.len(),
            r.len() == i,
            forall|j: int| 0 <= j < i ==> (#[trigger] r@[j])@ == v@[j]@,
    {
        proof {
            assert(decreases_to!(v => v@[i as int]));
        }
        r.push(v[i].clone());
    }
    assert(exprs_view(r@) =~= exprs_view(v@));
    r
}

fn copy_entries(v: &Vec<KeyValuePair>) -> (r: Vec<KeyValuePair>)
    ensures
        entries_view(r@) == entries_view(v@),
    decreases v,
{
    let mut r: Vec<KeyValuePair> = Vec::new();
    let n: usize = v.len();
    for i in 0..n
        invariant
            n == v.len(),
            r.len() == i,
            forall|j: int| 0 <= j < i ==> (#[trigger] r@[j])@ == v@[j]@,
    {
        proof {
            assert(decreases_to!(v => v@[i as int]));
        }
        r.push(v[i].clone());
    }
    assert(entries_view(r@) =~= entries_view(v@));
    r
}

fn copy_bundles(v: &Vec<Bundle>) -> (r: Vec<Bundle>)
    ensures
        bundles_view(r@) == bundles_view(v@),
    decreases v,
{
    let mut r: Vec<Bundle> = Vec::new();
    let n: usize = v.len();
    for i in 0..n
        invariant
            n == v.len(),
            r.len() == i,
            forall|j: int| 0 <= j < i ==> (#[trigger] r@[j])@ == v@[j]@,
    {
        proof {
            assert(decreases_to!(v => v@[i as int]));
        }
        r.push(v[i].clone());
    }
    assert(bundles_view(r@) =~= bundles_view(v@));
    r
}

fn copy_unforgeables(v: &Vec<GUnforgeable>) -> (r: Vec<GUnforgeable>)
    ensures
        unforgeables_view(r@) == unforgeables_view(v@),
{
    let mut r: Vec<GUnforgeable> = Vec::new();
    let n: usize = v.len();
    for i in 0..n
        invariant
            n == v.len(),
            r.len() == i,
            forall|j: int| 0 <= j < i ==> (#[trigger] r@[j])@ == v@[j]@,
    {
        r.push(v[i].clone());
    }
    assert(unforgeables_view(r@) =~= unforgeables_view(v@));
    r
}

impl Clone for Par {
    fn clone(&self) -> (r: Par)
        ensures
            r@ == self@,
        decreases self,
    {
        Par {
            processes: copy_byte_strings(&self.processes),
            exprs: copy_exprs(&self.exprs),
            unforgeables: copy_unforgeables(&self.unforgeables),
            bundles: copy_bundles(&self.bundles),
            connectives: copy_byte_strings(&self.connectives),
        }
    }
}

impl Clone for Expr {
    fn clone(&self) -> (r: Expr)
        ensures
            r@ == self@,
        decreases self,
    {
        match self {
            Expr::GBool(b) => Expr::GBool(*b),
            Expr::GInt(n) => Expr::GInt(*n),
            Expr::GString(s) => Expr::GString(s.clone()),
            Expr::GUri(s) => Expr::GUri(s.clone()),
            Expr::GByteArray(b) => Expr::GByteArray(copy_bytes(b)),
            Expr::EListBody(ps) => Expr::EListBody(copy_pars(ps)),
            Expr::ETupleBody(ps) => Expr::ETupleBody(copy_pars(ps)),
            Expr::EMapBody(kvs) => Expr::EMapBody(copy_entries(kvs)),
            Expr::Other(b) => Expr::Other(copy_bytes(b)),
        }
    }
}

impl Clone for KeyValuePair {
    fn clone(&self) -> (r: KeyValuePair)
        ensures
            r@ == self@,
        decreases self,
    {
        KeyValuePair { key: self.key.clone(), value: self.value.clone() }
    }
}

impl Clone for GUnforgeable {
    fn clone(&self) -> (r: GUnforgeable)
        ensures
            r@ == self@,
    {
        match self {
            GUnforgeable::GPrivateBody(p) => GUnforgeable::GPrivateBody(p.clone()),
            GUnforgeable::GDeployIdBody(b) => GUnforgeable::GDeployIdBody(copy_bytes(b)),
            GUnforgeable::GDeployerIdBody(b) => GUnforgeable::GDeployerIdBody(copy_bytes(b)),
            GUnforgeable::GSysAuthTokenBody => GUnforgeable::GSysAuthTokenBody,
        }
    }
}

impl Clone for GPrivate {
    fn clone(&self) -> (r: GPrivate)
        ensures
            r.id@ == self.id@,
    {
        GPrivate { id: copy_bytes(&self.id) }
    }
}

impl Clone for Bundle {
    fn clone(&self) -> (r: Bundle)
        ensures
            r@ == self@,
        decreases self,
    {
        Bundle {
            body: self.body.clone(),
            write_flag: self.write_flag,
            read_flag: self.read_flag,
        }
    }
}

fn same_bytes(a: &Vec<u8>, b: &Vec<u8>) -> (r: bool)
    ensures
        r == (a@ == b@),
{
    let r: bool = *a == *b;
    assert(r == (a@ =~= b@));
    r
}

fn same_byte_strings(a: &Vec<Vec<u8>>, b: &Vec<Vec<u8>>) -> (r: bool)
    ensures
        r == (bytes_views(a@) == bytes_views(b@)),
{
    if a.len() != b.len() {
        assert(bytes_views(a@).len() != bytes_views(b@).len());
        return false;
    }
    let n: usize = a.len();
    for i in 0..n
        invariant
            n == a.len(),
            n == b.len(),
            forall|j: int| 0 <= j < i ==> (#[trigger] a@[j])@ == b@[j]@,
    {
        if !same_bytes(&a[i], &b[i]) {
            assert(bytes_views(a@)[i as int] != bytes_views(b@)[i as int]);
            return false;
        }
    }
    assert(bytes_views(a@) =~= bytes_views(b@));
    true
}

fn same_pars(a: &Vec<Par>, b: &Vec<Par>) -> (r: bool)
    ensures
        r == (pars_view(a@) == pars_view(b@)),
    decreases a,
{
    if a.len() != b.len() {
        assert(pars_view(a@).len() != pars_view(b@).len());
        return false;
    }
    let n: usize = a.len();
    for i in 0..n
        invariant
            n == a.len(),
            n == b.len(),
            forall|j: int| 0 <= j < i ==> (#[trigger] a@[j])@ == b@[j]@,
    {
        proof {
            assert(decreases_to!(a => a@[i as int]));
        }
        if !a[i].same(&b[i]) {
            assert(pars_view(a@)[i as int] != pars_view(b@)[i as int]);
            return false;
        }
    }
    assert(pars_view(a@) =~= pars_view(b@));
    true
}

fn same_exprs(a: &Vec<Expr>, b: &Vec<Expr>) -> (r: bool)
    ensures
        r == (exprs_view(a@) == exprs_view(b@)),
    decreases a,
{
    if a.len() != b.len() {
        assert(exprs_view(a@).len() != exprs_view(b@).len());
        return false;
    }
    let n: usize = a.len();
    for i in 0..n
        invariant
            n == a.len(),
            n == b.len(),
            forall|j: int| 0 <= j < i ==> (#[trigger] a@[j])@ == b@[j]@,
    {
        proof {
            assert(decreases_to!(a => a@[i as int]));
        }
        if !a[i].same(&b[i]) {
            assert(exprs_view(a@)[i as int] != exprs_view(b@)[i as int]);
            return false;
        }
    }
    assert(exprs_view(a@) =~= exprs_view(b@));
    true
}

fn same_entries(a: &Vec<KeyValuePair>, b: &Vec<KeyValuePair>) -> (r: bool)
    ensures
        r == (entries_view(a@) == entries_view(b@)),
    decreases a,
{
    if a.len() != b.len() {
        assert(entries_view(a@).len() != entries_view(b@).len());
        return false;
    }
    let n: usize = a.len();
    for i in 0..n
        invariant
            n == a.len(),
            n == b.len(),
            forall|j: int| 0 <= j < i ==> (#[trigger] a@[j])@ == b@[j]@,
    {
        proof {
            assert(decreases_to!(a => a@[i as int]));
        }
        if !(a[i].key.same(&b[i].key) && a[i].value.same(&b[i].value)) {
            assert(entries_view(a@)[i as int] != entries_view(b@)[i as int]);
            return false;
        }
    }
    assert(entries_view(a@) =~= entries_view(b@));
    true
}

fn same_bundles(a: &Vec<Bundle>, b: &Vec<Bundle>) -> (r: bool)
    ensures
        r == (bundles_view(a@) == bundles_view(b@)),
    decreases a,
{
    if a.len() != b.len() {
        assert(bundles_view(a@).len() != bundles_view(b@).len());
        return false;
    }
    let n: usize = a.len();
    for i in 0..n
        invariant
            n == a.len(),
            n == b.len(),
            forall|j: int| 0 <= j < i ==> (#[trigger] a@[j])@ == b@[j]@,
    {
        proof {
            assert(decreases_to!(a => a@[i as int]));
        }
        if !a[i].same(&b[i]) {
            assert(bundles_view(a@)[i as int] != bundles_view(b@)[i as int]);
            return false;
        }
    }
    assert(bundles_view(a@) =~= bundles_view(b@));
    true
}

fn same_unforgeables(a: &Vec<GUnforgeable>, b: &Vec<GUnforgeable>) -> (r: bool)
    ensures
        r == (unforgeables_view(a@) == unforgeables_view(b@)),
{
    if a.len() != b.len() {
        assert(unforgeables_view(a@).len() != unforgeables_view(b@).len());
        return false;
    }
    let n: usize = a.len();
    for i in 0..n
        invariant
            n == a.len(),
            n == b.len(),
            forall|j: int| 0 <= j < i ==> (#[trigger] a@[j])@ == b@[j]@,
    {
        if !a[i].same(&b[i]) {
            assert(unforgeables_view(a@)[i as int] != unforgeables_view(b@)[i as int]);
            return false;
        }
    }
    assert(unforgeables_view(a@) =~= unforgeables_view(b@));
    true
}

impl Par {
    /// Whether two processes are the same, part for part.
    pub fn same(&self, other: &Par) -> (r: bool)
        ensures
            r == (self@ == other@),
        decreases self,
    {
        same_byte_strings(&self.processes, &other.processes)
            && same_exprs(&self.exprs, &other.exprs)
            && same_unforgeables(&self.unforgeables, &other.unforgeables)
            && same_bundles(&self.bundles, &other.bundles)
            && same_byte_strings(&self.connectives, &other.connectives)
    }
}

impl Expr {
    fn same(&self, other: &Expr) -> (r: bool)
        ensures
            r == (self@ == other@),
        decreases self,
    {
        match (self, other) {
            (Expr::GBool(a), Expr::GBool(b)) => *a == *b,
            (Expr::GInt(a), Expr::GInt(b)) => *a == *b,
            (Expr::GString(a), Expr::GString(b)) => *a == *b,
            (Expr::GUri(a), Expr::GUri(b)) => *a == *b,
            (Expr::GByteArray(a), Expr::GByteArray(b)) => same_bytes(a, b),
            (Expr::EListBody(a), Expr::EListBody(b)) => same_pars(a, b),
            (Expr::ETupleBody(a), Expr::ETupleBody(b)) => same_pars(a, b),
            (Expr::EMapBody(a), Expr::EMapBody(b)) => same_entries(a, b),
            (Expr::Other(a), Expr::Other(b)) => same_bytes(a, b),
            _ => false,
        }
    }
}

impl GUnforgeable {
    fn same(&self, other: &GUnforgeable) -> (r: bool)
        ensures
            r == (self@ == other@),
    {
        match (self, other) {
            (GUnforgeable::GPrivateBody(a), GUnforgeable::GPrivateBody(b)) => same_bytes(
                &a.id,
                &b.id,
            ),
            (GUnforgeable::GDeployIdBody(a), GUnforgeable::GDeployIdBody(b)) => same_bytes(a, b),
            (GUnforgeable::GDeployerIdBody(a), GUnforgeable::GDeployerIdBody(b)) => same_bytes(
                a,
                b,
            ),
            (GUnforgeable::GSysAuthTokenBody, GUnforgeable::GSysAuthTokenBody) => true,
            _ => false,
        }
    }
}

impl Bundle {
    fn same(&self, other: &Bundle) -> (r: bool)
        ensures
            r == (self@ == other@),
        decreases self,
    {
        self.write_flag == other.write_flag && self.read_flag == other.read_flag
            && self.body.same(&other.body)
    }
}

} // verus!
