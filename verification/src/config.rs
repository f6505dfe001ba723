//! Configuration resolution: a raw, already-tokenised manifest is validated
//! under a strict schema and turned into trigger metadata and a list of
//! component bindings, or rejected with an error naming the offending field.
//!
//! The trigger block must carry exactly the fields `type`, `address` and
//! `qos`; every component entry exactly `component`, `topic` and `qos`.
//! Unknown, duplicated, missing or ill-typed fields are rejected, as are an
//! empty broker address, an empty topic and a quality-of-service level
//! outside 0..=2.

use vstd::prelude::*;

verus! {

/// A raw manifest field value, as handed over by whatever read the manifest
/// file: text, a non-negative integer, or anything else (which no field of
/// the schema accepts).
#[derive(Debug, Clone, PartialEq, Eq)]
pub enum RawValue {
    Text(String),
    Number(u64),
    Other,
}

/// One named field of a raw manifest block.
#[derive(Debug, Clone, PartialEq, Eq)]
pub struct RawField {
    pub name: String,
    pub value: RawValue,
}

/// One raw component entry of the manifest.
#[derive(Debug, Clone, PartialEq, Eq)]
pub struct RawComponent {
    pub fields: Vec<RawField>,
}

/// The raw manifest: the trigger block and the component entries, in file
/// order.
#[derive(Debug, Clone, PartialEq, Eq)]
pub struct RawManifest {
    pub trigger: Vec<RawField>,
    pub components: Vec<RawComponent>,
}

/// Validated broker settings: a non-empty broker address and the default
/// outbound quality-of-service level.
#[derive(Debug, PartialEq, Eq)]
pub struct TriggerMetadata {
    pub broker_address: String,
    pub default_qos: u8,
}

/// The mathematical value of a `TriggerMetadata`.
pub ghost struct MetadataView {
    pub broker_address: Seq<char>,
    pub default_qos: u8,
}

impl View for TriggerMetadata {
    type V = MetadataView;

    open spec fn view(&self) -> MetadataView {
        MetadataView { broker_address: self.broker_address@, default_qos: self.default_qos }
    }
}

impl TriggerMetadata {
    /// The invariant every resolved metadata value satisfies.
    pub open spec fn wf(self) -> bool {
        self.broker_address@.len() > 0 && self.default_qos <= 2
    }
}

/// A validated binding of one handler module to one topic at one
/// quality-of-service level.
#[derive(Debug, PartialEq, Eq)]
pub struct ComponentBinding {
    pub component_id: String,
    pub topic: String,
    pub qos: u8,
}

/// The mathematical value of a `ComponentBinding`.
pub ghost struct BindingView {
    pub component_id: Seq<char>,
    pub topic: Seq<char>,
    pub qos: u8,
}

impl View for ComponentBinding {
    type V = BindingView;

    open spec fn view(&self) -> BindingView {
        BindingView {
            component_id: self.component_id@,
            topic: self.topic@,
            qos: self.qos,
        }
    }
}

impl DeepView for ComponentBinding {
    type V = BindingView;

    open spec fn deep_view(&self) -> BindingView {
        self.view()
    }
}

impl Clone for ComponentBinding {
    fn clone(&self) -> (res: Self)
        ensures
            res == *self,
    {
        ComponentBinding {
            component_id: self.component_id.clone(),
            topic: self.topic.clone(),
            qos: self.qos,
        }
    }
}

impl ComponentBinding {
    /// The invariant every resolved binding satisfies.
    pub open spec fn wf(self) -> bool {
        self.topic@.len() > 0 && self.qos <= 2
    }
}

/// Why a manifest was rejected, naming the offending field.
#[derive(Debug, Clone, PartialEq, Eq)]
pub enum ConfigError {
    /// A required field of the schema does not occur in its block.
    MissingField(String),
    /// A field occurs that the schema does not know.
    UnknownField(String),
    /// A field of the schema occurs more than once in its block.
    DuplicateField(String),
    /// A field of the schema carries a value of the wrong type.
    WrongFieldType(String),
    /// A field is well-typed but its value is not allowed: an empty broker
    /// address, an empty topic, or a quality-of-service level above 2.
    InvalidFieldValue(String),
}

/// The mathematical value of a `ConfigError`.
pub ghost enum ConfigErrorView {
    MissingField(Seq<char>),
    UnknownField(Seq<char>),
    DuplicateField(Seq<char>),
    WrongFieldType(Seq<char>),
    InvalidFieldValue(Seq<char>),
}

impl View for ConfigError {
    type V = ConfigErrorView;

    open spec fn view(&self) -> ConfigErrorView {
        match self {
            ConfigError::MissingField(n) => ConfigErrorView::MissingField(n@),
            ConfigError::UnknownField(n) => ConfigErrorView::UnknownField(n@),
            ConfigError::DuplicateField(n) => ConfigErrorView::DuplicateField(n@),
            ConfigError::WrongFieldType(n) => ConfigErrorView::WrongFieldType(n@),
            ConfigError::InvalidFieldValue(n) => ConfigErrorView::InvalidFieldValue(n@),
        }
    }
}

/// The state of a left-to-right scan of one manifest block under a schema of
/// three fields: a textual field `a`, a textual field `b` and a numeric
/// field `q`. Once an error is recorded the scan is inert.
pub ghost struct BlockScan {
    pub a: Option<Seq<char>>,
    pub b: Option<Seq<char>>,
    pub q: Option<u64>,
    pub error: Option<ConfigErrorView>,
}

/// One step of the block scan: how a single raw field changes the scan state.
pub open spec fn block_scan_step(
    st: BlockScan,
    f: RawField,
    a_name: Seq<char>,
    b_name: Seq<char>,
    q_name: Seq<char>,
) -> BlockScan {
    if st.error matches Some(_) {
        st
    } else if f.name@ == a_name {
        if st.a matches Some(_) {
            BlockScan { error: Some(ConfigErrorView::DuplicateField(a_name)), ..st }
        } else {
            match f.value {
                RawValue::Text(s) => BlockScan { a: Some(s@), ..st },
                _ => BlockScan { error: Some(ConfigErrorView::WrongFieldType(a_name)), ..st },
            }
        }
    } else if f.name@ == b_name {
        if st.b matches Some(_) {
            BlockScan { error: Some(ConfigErrorView::DuplicateField(b_name)), ..st }
        } else {
            match f.value {
                RawValue::Text(s) => BlockScan { b: Some(s@), ..st },
                _ => BlockScan { error: Some(ConfigErrorView::WrongFieldType(b_name)), ..st },
            }
        }
    } else if f.name@ == q_name {
        if st.q matches Some(_) {
            BlockScan { error: Some(ConfigErrorView::DuplicateField(q_name)), ..st }
        } else {
            match f.value {
                RawValue::Number(n) => BlockScan { q: Some(n), ..st },
                _ => BlockScan { error: Some(ConfigErrorView::WrongFieldType(q_name)), ..st },
            }
        }
    } else {
        BlockScan { error: Some(ConfigErrorView::UnknownField(f.name@)), ..st }
    }
}

/// The scan state after reading a whole block left to right.
pub open spec fn block_scan(
    fields: Seq<RawField>,
    a_name: Seq<char>,
    b_name: Seq<char>,
    q_name: Seq<char>,
) -> BlockScan
    decreases fields.len(),
{
    if fields.len() == 0 {
        BlockScan { a: None, b: None, q: None, error: None }
    } else {
        block_scan_step(
            block_scan(fields.drop_last(), a_name, b_name, q_name),
            fields.last(),
            a_name,
            b_name,
            q_name,
        )
    }
}

/// What validating one block yields: the values of the three schema fields,
/// or the first error. Scan errors come first, in field order of the block;
/// then missing fields in schema order; then value constraints (`b` must be
/// non-empty, `q` at most 2) in schema order.
pub open spec fn block_outcome(
    fields: Seq<RawField>,
    a_name: Seq<char>,
    b_name: Seq<char>,
    q_name: Seq<char>,
) -> Result<(Seq<char>, Seq<char>, u64), ConfigErrorView> {
    let st = block_scan(fields, a_name, b_name, q_name);
    match st.error {
        Some(e) => Err(e),
        None => match (st.a, st.b, st.q) {
            (None, _, _) => Err(ConfigErrorView::MissingField(a_name)),
            (Some(_), None, _) => Err(ConfigErrorView::MissingField(b_name)),
            (Some(_), Some(_), None) => Err(ConfigErrorView::MissingField(q_name)),
            (Some(a), Some(b), Some(q)) => if b.len() == 0 {
                Err(ConfigErrorView::InvalidFieldValue(b_name))
            } else if q > 2 {
                Err(ConfigErrorView::InvalidFieldValue(q_name))
            } else {
                Ok((a, b, q))
            },
        },
    }
}

/// What validating the trigger block yields: its schema is `type` (text),
/// `address` (text, non-empty) and `qos` (0..=2). The value of `type` is
/// recorded by the manifest but not interpreted here.
pub open spec fn trigger_outcome(fields: Seq<RawField>) -> Result<
    MetadataView,
    ConfigErrorView,
> {
    match block_outcome(fields, "type"@, "address"@, "qos"@) {
        Ok(t) => Ok(MetadataView { broker_address: t.1, default_qos: t.2 as u8 }),
        Err(e) => Err(e),
    }
}

/// What validating one component entry yields: its schema is `component`
/// (text), `topic` (text, non-empty) and `qos` (0..=2).
pub open spec fn component_outcome(fields: Seq<RawField>) -> Result<
    BindingView,
    ConfigErrorView,
> {
    match block_outcome(fields, "component"@, "topic"@, "qos"@) {
        Ok(t) => Ok(BindingView { component_id: t.0, topic: t.1, qos: t.2 as u8 }),
        Err(e) => Err(e),
    }
}

/// What validating all component entries yields: one binding per entry, in
/// entry order, or the error of the earliest invalid entry.
pub open spec fn bindings_outcome(entries: Seq<RawComponent>) -> Result<
    Seq<BindingView>,
    ConfigErrorView,
>
    decreases entries.len(),
{
    if entries.len() == 0 {
        Ok(Seq::empty())
    } else {
        match bindings_outcome(entries.drop_last()) {
            Err(e) => Err(e),
            Ok(bs) => match component_outcome(entries.last().fields@) {
                Err(e) => Err(e),
                Ok(b) => Ok(bs.push(b)),
            },
        }
    }
}

/// What resolving a whole manifest yields: the metadata and one binding per
/// component entry, or the first error, trigger block first.
pub open spec fn manifest_outcome(m: RawManifest) -> Result<
    (MetadataView, Seq<BindingView>),
    ConfigErrorView,
> {
    match trigger_outcome(m.trigger@) {
        Err(e) => Err(e),
        Ok(md) => match bindings_outcome(m.components@) {
            Err(e) => Err(e),
            Ok(bs) => Ok((md, bs)),
        },
    }
}

/// How the executable scan state corresponds to the specification's.
spec fn scan_state_matches(
    a_val: Option<String>,
    b_val: Option<String>,
    q_val: Option<u64>,
    err: Option<ConfigError>,
    st: BlockScan,
) -> bool {
    &&& match a_val {
        Some(s) => st.a == Some(s@),
        None => st.a matches None,
    }
    &&& match b_val {
        Some(s) => st.b == Some(s@),
        None => st.b matches None,
    }
    &&& st.q == q_val
    &&& match err {
        Some(e) => st.error == Some(e@),
        None => st.error matches None,
    }
}

/// Validates one manifest block against the three-field schema given by the
/// key names, returning the field values or the first error exactly as
/// `block_outcome` describes.
fn scan_block(fields: &Vec<RawField>, a_key: &String, b_key: &String, q_key: &String) -> (r:
    Result<(String, String, u64), ConfigError>)
    ensures
        ({
            let o = block_outcome(fields@, a_key@, b_key@, q_key@);
            match r {
                Ok(t) => o == Ok::<_, ConfigErrorView>((t.0@, t.1@, t.2)),
                Err(e) => o == Err::<(Seq<char>, Seq<char>, u64), _>(e@),
            }
        }),
{
    let ghost ga = a_key@;
    let ghost gb = b_key@;
    let ghost gq = q_key@;
    let mut a_val: Option<String> = None;
    let mut b_val: Option<String> = None;
    let mut q_val: Option<u64> = None;
    let mut err: Option<ConfigError> = None;
    let mut i: usize = 0;
    while i < fields.len()
        invariant
            i <= fields@.len(),
            scan_state_matches(a_val, b_val, q_val, err, block_scan(fields@.take(i as int), ga, gb, gq)),
            ga == a_key@ && gb == b_key@ && gq == q_key@,
        decreases fields@.len() - i,
    {
        let f = &fields[i];
        if err.is_some() {
            // the scan is inert after the first error
        } else if f.name == *a_key {
            if a_val.is_some() {
                err = Some(ConfigError::DuplicateField(String::clone(a_key)));
            } else {
                match &f.value {
                    RawValue::Text(s) => { a_val = Some(String::clone(s)); },
                    _ => { err = Some(ConfigError::WrongFieldType(String::clone(a_key))); },
                }
            }
        } else if f.name == *b_key {
            if b_val.is_some() {
                err = Some(ConfigError::DuplicateField(String::clone(b_key)));
            } else {
                match &f.value {
                    RawValue::Text(s) => { b_val = Some(String::clone(s)); },
                    _ => { err = Some(ConfigError::WrongFieldType(String::clone(b_key))); },
                }
            }
        } else if f.name == *q_key {
            if q_val.is_some() {
                err = Some(ConfigError::DuplicateField(String::clone(q_key)));
            } else {
                match &f.value {
                    RawValue::Number(n) => { q_val = Some(*n); },
                    _ => { err = Some(ConfigError::WrongFieldType(String::clone(q_key))); },
                }
            }
        } else {
            err = Some(ConfigError::UnknownField(String::clone(&f.name)));
        }
        proof {
            assert(fields@.take(i as int + 1).drop_last() =~= fields@.take(i as int));
            assert(fields@.take(i as int + 1).last() == fields@[i as int]);
        }
        i += 1;
    }
    proof {
        assert(fields@.take(i as int) =~= fields@);
    }
    if let Some(e) = err {
        return Err(e);
    }
    let a = match a_val {
        Some(s) => s,
        None => { return Err(ConfigError::MissingField(String::clone(a_key))); },
    };
    let b = match b_val {
        Some(s) => s,
        None => { return Err(ConfigError::MissingField(String::clone(b_key))); },
    };
    let q = match q_val {
        Some(n) => n,
        None => { return Err(ConfigError::MissingField(String::clone(q_key))); },
    };
    if b.as_str().is_empty() {
        return Err(ConfigError::InvalidFieldValue(String::clone(b_key)));
    }
    if q > 2 {
        return Err(ConfigError::InvalidFieldValue(String::clone(q_key)));
    }
    Ok((a, b, q))
}

/// Once some prefix of the component entries is invalid, the whole list is,
/// with the same error.
proof fn lemma_bindings_error_stable(entries: Seq<RawComponent>, k: int)
    requires
        0 <= k <= entries.len(),
        bindings_outcome(entries.take(k)) matches Err(_),
    ensures
        bindings_outcome(entries) == bindings_outcome(entries.take(k)),
    decreases entries.len() - k,
{
    if k == entries.len() {
        assert(entries.take(k) =~= entries);
    } else {
        assert(entries.take(k + 1).drop_last() =~= entries.take(k));
        lemma_bindings_error_stable(entries, k + 1);
    }
}

/// Resolves a raw manifest into validated trigger metadata and the list of
/// component bindings, or rejects it with an error naming the offending
/// field, exactly as `manifest_outcome` describes. Resolution succeeds if
/// and only if the manifest satisfies the strict schema; resolved values
/// satisfy the data-model invariants.
pub fn resolve(m: &RawManifest) -> (r: Result<(TriggerMetadata, Vec<ComponentBinding>), ConfigError>)
    ensures
        ({
            let o = manifest_outcome(*m);
            match r {
                Ok(ok) => {
                    &&& o == Ok::<_, ConfigErrorView>((ok.0@, ok.1.deep_view()))
                    &&& ok.0.wf()
                    &&& forall|j: int| 0 <= j < ok.1@.len() ==> #[trigger] ok.1@[j].wf()
                },
                Err(e) => o == Err::<(MetadataView, Seq<BindingView>), _>(e@),
            }
        }),
{
    let type_key = String::from_str("type");
    let address_key = String::from_str("address");
    let qos_key = String::from_str("qos");
    let component_key = String::from_str("component");
    let topic_key = String::from_str("topic");

    let scanned = match scan_block(&m.trigger, &type_key, &address_key, &qos_key) {
        Ok(t) => t,
        Err(e) => { return Err(e); },
    };
    let metadata = TriggerMetadata { broker_address: scanned.1, default_qos: scanned.2 as u8 };

    let mut bindings: Vec<ComponentBinding> = Vec::new();
    proof {
        assert(m.components@.take(0) =~= Seq::<RawComponent>::empty());
        assert(bindings.deep_view() =~= Seq::<BindingView>::empty());
    }
    let mut i: usize = 0;
    while i < m.components.len()
        invariant
            i <= m.components@.len(),
            component_key@ == "component"@,
            topic_key@ == "topic"@,
            qos_key@ == "qos"@,
            trigger_outcome(m.trigger@) == Ok::<_, ConfigErrorView>(metadata@),
            metadata.wf(),
            bindings_outcome(m.components@.take(i as int)) == Ok::<_, ConfigErrorView>(
                bindings.deep_view(),
            ),
            forall|j: int| 0 <= j < bindings@.len() ==> #[trigger] bindings@[j].wf(),
        decreases m.components@.len() - i,
    {
        proof {
            assert(m.components@.take(i as int + 1).drop_last() =~= m.components@.take(i as int));
            assert(m.components@.take(i as int + 1).last() == m.components@[i as int]);
        }
        match scan_block(&m.components[i].fields, &component_key, &topic_key, &qos_key) {
            Ok(t) => {
                let ghost before = bindings.deep_view();
                let binding = ComponentBinding { component_id: t.0, topic: t.1, qos: t.2 as u8 };
                bindings.push(binding);
                proof {
                    assert(bindings.deep_view() =~= before.push(binding@));
                    assert(component_outcome(m.components@[i as int].fields@)
                        == Ok::<_, ConfigErrorView>(binding@));
                    assert(bindings_outcome(m.components@.take(i as int + 1))
                        == Ok::<_, ConfigErrorView>(before.push(binding@)));
                }
            },
            Err(e) => {
                proof {
                    assert(component_outcome(m.components@[i as int].fields@)
                        == Err::<BindingView, _>(e@));
                    assert(bindings_outcome(m.components@.take(i as int + 1))
                        == Err::<Seq<BindingView>, _>(e@));
                    lemma_bindings_error_stable(m.components@, i as int + 1);
                }
                return Err(e);
            },
        }
        i += 1;
    }
    proof {
        assert(m.components@.take(i as int) =~= m.components@);
    }
    Ok((metadata, bindings))
}

/// A block that never names the schema's `b` field cannot fill the `b`
/// slot of the scan.
proof fn lemma_scan_without_b(
    fields: Seq<RawField>,
    a_name: Seq<char>,
    b_name: Seq<char>,
    q_name: Seq<char>,
)
    requires
        forall|i: int| 0 <= i < fields.len() ==> #[trigger] fields[i].name@ != b_name,
    ensures
        block_scan(fields, a_name, b_name, q_name).b matches None,
    decreases fields.len(),
{
    if fields.len() > 0 {
        assert(forall|i: int|
            0 <= i < fields.drop_last().len() ==> #[trigger] fields.drop_last()[i].name@
                != b_name);
        lemma_scan_without_b(fields.drop_last(), a_name, b_name, q_name);
    }
}

/// A manifest whose trigger block has no `address` field is rejected:
/// resolution yields a configuration error, so no metadata and no bindings
/// — and hence no listeners — ever come from it.
pub proof fn lemma_missing_address_rejected(m: RawManifest)
    requires
        forall|i: int| 0 <= i < m.trigger@.len() ==> #[trigger] m.trigger@[i].name@ != "address"@,
    ensures
        manifest_outcome(m) matches Err(_),
{
    lemma_scan_without_b(m.trigger@, "type"@, "address"@, "qos"@);
}

} // verus!
