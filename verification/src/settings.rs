//! The settings schema model and its three pure operations: extracting the
//! declared defaults of a field list, merging overrides over defaults, and
//! validating a settings value against the schema's required fields.

use vstd::prelude::*;
use vstd::seq_lib::*;

use crate::value::{obj_get, obj_insert, obj_view, SettingsValue, ValueView};

verus! {

/// The value kind a schema field declares.
#[derive(Clone, Copy, PartialEq, Eq, Structural, Debug)]
pub enum SettingKind {
    Boolean,
    Number,
    Text,
    Color,
    Select,
}

/// One selectable option of a `Select` field.
pub struct SettingOption {
    pub label: String,
    pub value: SettingsValue,
}

/// View of a selectable option.
pub struct OptionView {
    pub label: Seq<char>,
    pub value: ValueView,
}

impl View for SettingOption {
    type V = OptionView;

    open spec fn view(&self) -> OptionView {
        OptionView { label: self.label@, value: self.value@ }
    }
}

/// Presentation hints of a schema field. The numeric bounds are integral:
/// the engine never computes with them, it only hands them through.
pub struct SettingUi {
    pub placeholder: Option<String>,
    pub min: Option<i64>,
    pub max: Option<i64>,
    pub step: Option<i64>,
    pub rows: Option<u32>,
    pub unit: Option<String>,
    pub danger: Option<bool>,
}

/// View of the presentation hints.
pub struct UiView {
    pub placeholder: Option<Seq<char>>,
    pub min: Option<i64>,
    pub max: Option<i64>,
    pub step: Option<i64>,
    pub rows: Option<u32>,
    pub unit: Option<Seq<char>>,
    pub danger: Option<bool>,
}

impl View for SettingUi {
    type V = UiView;

    open spec fn view(&self) -> UiView {
        UiView {
            placeholder: self.placeholder.deep_view(),
            min: self.min,
            max: self.max,
            step: self.step,
            rows: self.rows,
            unit: self.unit.deep_view(),
            danger: self.danger,
        }
    }
}

impl SettingUi {
    /// Hints with nothing set; the usual starting point of a schema author.
    pub fn empty() -> (r: SettingUi)
        ensures
            r@ == (UiView {
                placeholder: None,
                min: None,
                max: None,
                step: None,
                rows: None,
                unit: None,
                danger: None,
            }),
    {
        SettingUi {
            placeholder: None,
            min: None,
            max: None,
            step: None,
            rows: None,
            unit: None,
            danger: None,
        }
    }
}

/// One schema entry: a stable key, a human label, the declared kind and
/// default, a required flag, and optional description, options and hints.
pub struct SettingField {
    pub key: String,
    pub label: String,
    pub kind: SettingKind,
    pub description: Option<String>,
    pub required: bool,
    pub default_value: SettingsValue,
    pub options: Option<Vec<SettingOption>>,
    pub ui: Option<SettingUi>,
}

/// View of a schema entry.
pub struct FieldView {
    pub key: Seq<char>,
    pub label: Seq<char>,
    pub kind: SettingKind,
    pub description: Option<Seq<char>>,
    pub required: bool,
    pub default_value: ValueView,
    pub options: Option<Seq<OptionView>>,
    pub ui: Option<UiView>,
}

impl View for SettingField {
    type V = FieldView;

    open spec fn view(&self) -> FieldView {
        FieldView {
            key: self.key@,
            label: self.label@,
            kind: self.kind,
            description: self.description.deep_view(),
            required: self.required,
            default_value: self.default_value@,
            options: match self.options {
                Some(ref opts) => Some(opts.deep_view()),
                None => None,
            },
            ui: match self.ui {
                Some(ref ui) => Some(ui@),
                None => None,
            },
        }
    }
}

impl DeepView for SettingOption {
    type V = OptionView;

    open spec fn deep_view(&self) -> OptionView {
        self@
    }
}

impl DeepView for SettingField {
    type V = FieldView;

    open spec fn deep_view(&self) -> FieldView {
        self@
    }
}

/// An extension's immutable self-description.
pub struct PluginMeta {
    pub id: String,
    pub name: String,
    pub description: String,
    pub category: String,
    pub settings: Vec<SettingField>,
}

/// View of a description.
pub struct MetaView {
    pub id: Seq<char>,
    pub name: Seq<char>,
    pub description: Seq<char>,
    pub category: Seq<char>,
    pub settings: Seq<FieldView>,
}

impl View for PluginMeta {
    type V = MetaView;

    open spec fn view(&self) -> MetaView {
        MetaView {
            id: self.id@,
            name: self.name@,
            description: self.description@,
            category: self.category@,
            settings: self.settings.deep_view(),
        }
    }
}

/// A listing entry: a description together with its resolved defaults.
pub struct PluginInfo {
    pub id: String,
    pub name: String,
    pub description: String,
    pub category: String,
    pub settings: Vec<SettingField>,
    pub defaults: SettingsValue,
}

/// View of a listing entry.
pub struct InfoView {
    pub id: Seq<char>,
    pub name: Seq<char>,
    pub description: Seq<char>,
    pub category: Seq<char>,
    pub settings: Seq<FieldView>,
    pub defaults: ValueView,
}

impl View for PluginInfo {
    type V = InfoView;

    open spec fn view(&self) -> InfoView {
        InfoView {
            id: self.id@,
            name: self.name@,
            description: self.description@,
            category: self.category@,
            settings: self.settings.deep_view(),
            defaults: self.defaults@,
        }
    }
}

impl DeepView for PluginInfo {
    type V = InfoView;

    open spec fn deep_view(&self) -> InfoView {
        self@
    }
}

impl PluginInfo {
    /// A listing entry whose defaults are exactly the schema's declared
    /// defaults.
    pub fn from_meta(meta: PluginMeta) -> (r: PluginInfo)
        ensures
            r@.id == meta@.id,
            r@.name == meta@.name,
            r@.description == meta@.description,
            r@.category == meta@.category,
            r@.settings == meta@.settings,
            r@.defaults == ValueView::Obj(defaults_map(meta@.settings)),
    {
        let defaults = defaults_from_fields(&meta.settings);
        PluginInfo {
            id: meta.id,
            name: meta.name,
            description: meta.description,
            category: meta.category,
            settings: meta.settings,
            defaults,
        }
    }
}

/// The mapping a field sequence declares: each field binds its key to its
/// default value, and with duplicate keys a later field wins.
pub open spec fn defaults_map(fields: Seq<FieldView>) -> Map<Seq<char>, ValueView>
    decreases fields,
{
    if fields.len() == 0 {
        Map::empty()
    } else {
        defaults_map(fields.drop_last()).insert(
            fields.last().key,
            fields.last().default_value,
        )
    }
}

/// Builds the key-to-default mapping a field list declares.
pub fn defaults_from_fields(fields: &Vec<SettingField>) -> (r: SettingsValue)
    ensures
        r@ == ValueView::Obj(defaults_map(fields.deep_view())),
{
    let mut pairs: Vec<(String, SettingsValue)> = Vec::new();
    let mut i: usize = 0;
    while i < fields.len()
        invariant
            i <= fields@.len(),
            obj_view(pairs@) == defaults_map(fields.deep_view().take(i as int)),
        decreases fields@.len() - i,
    {
        obj_insert(&mut pairs, fields[i].key.clone(), fields[i].default_value.deep_clone());
        proof {
            let fv = fields.deep_view();
            assert(fv.take(i + 1).drop_last() =~= fv.take(i as int));
            assert(fv.take(i + 1).last() == fv[i as int]);
        }
        i += 1;
    }
    proof {
        assert(fields.deep_view().take(fields.deep_view().len() as int) =~= fields.deep_view());
    }
    SettingsValue::Obj(pairs)
}

/// Merge of overrides over defaults: when both are objects, every override
/// key wins; otherwise the defaults stand unchanged.
pub open spec fn merge_view(overrides: ValueView, defaults: ValueView) -> ValueView {
    match (overrides, defaults) {
        (ValueView::Obj(om), ValueView::Obj(dm)) => ValueView::Obj(dm.union_prefer_right(om)),
        _ => defaults,
    }
}

/// Merges caller overrides over defaults; both values are left untouched
/// and a fresh value is returned.
pub fn merge_settings(settings: &SettingsValue, defaults: &SettingsValue) -> (r: SettingsValue)
    ensures
        r@ == merge_view(settings@, defaults@),
{
    match (settings, defaults) {
        (SettingsValue::Obj(ov), SettingsValue::Obj(dv)) => {
            let mut out: Vec<(String, SettingsValue)> = crate::value::clone_pairs(dv);
            let mut i: usize = 0;
            proof {
                assert(obj_view(ov@.take(0)) =~= Map::<Seq<char>, ValueView>::empty());
                assert(obj_view(out@).union_prefer_right(obj_view(ov@.take(0))) =~= obj_view(
                    dv@,
                ));
            }
            while i < ov.len()
                invariant
                    i <= ov@.len(),
                    obj_view(out@) == obj_view(dv@).union_prefer_right(
                        obj_view(ov@.take(i as int)),
                    ),
                decreases ov@.len() - i,
            {
                obj_insert(&mut out, ov[i].0.clone(), ov[i].1.deep_clone());
                proof {
                    assert(ov@.take(i + 1).drop_last() =~= ov@.take(i as int));
                    assert(ov@.take(i + 1).last() == ov@[i as int]);
                    assert(obj_view(dv@).union_prefer_right(obj_view(ov@.take(i + 1))) =~= obj_view(
                        dv@,
                    ).union_prefer_right(obj_view(ov@.take(i as int))).insert(
                        ov@[i as int].0@,
                        crate::value::value_view(ov@[i as int].1),
                    ));
                }
                i += 1;
            }
            proof {
                assert(ov@.take(ov@.len() as int) =~= ov@);
            }
            SettingsValue::Obj(out)
        },
        _ => defaults.deep_clone(),
    }
}

/// The message given when the settings value is not an object.
pub open spec fn not_object_msg() -> Seq<char> {
    "Settings must be an object."@
}

/// The message given for one missing required field.
pub open spec fn required_msg(label: Seq<char>) -> Seq<char> {
    "Field '"@ + label + "' is required."@
}

/// A field the given mapping fails: required, and absent or bound to null.
pub open spec fn field_missing(m: Map<Seq<char>, ValueView>, f: FieldView) -> bool {
    f.required && (!m.contains_key(f.key) || m[f.key] is Null)
}

/// The errors a field sequence yields against a mapping, in field order.
pub open spec fn validate_fields(
    m: Map<Seq<char>, ValueView>,
    fields: Seq<FieldView>,
) -> Seq<Seq<char>>
    decreases fields,
{
    if fields.len() == 0 {
        Seq::empty()
    } else {
        validate_fields(m, fields.drop_last()) + if field_missing(m, fields.last()) {
            seq![required_msg(fields.last().label)]
        } else {
            Seq::empty()
        }
    }
}

/// The full validation result: a single generic error for a non-object
/// value, otherwise one error per missing required field.
pub open spec fn validate_view(v: ValueView, fields: Seq<FieldView>) -> Seq<Seq<char>> {
    match v {
        ValueView::Obj(m) => validate_fields(m, fields),
        _ => seq![not_object_msg()],
    }
}

/// Validates a settings value against a schema's field list; the result is
/// empty exactly when every required field is present and non-null.
pub fn validate_settings(settings: &SettingsValue, fields: &Vec<SettingField>) -> (r: Vec<String>)
    ensures
        r.deep_view() == validate_view(settings@, fields.deep_view()),
{
    let mut errors: Vec<String> = Vec::new();
    let pairs = match settings {
        SettingsValue::Obj(pairs) => pairs,
        _ => {
            errors.push("Settings must be an object.".to_owned());
            proof {
                assert(errors.deep_view() =~= seq![not_object_msg()]);
            }
            return errors;
        },
    };
    let ghost m = obj_view(pairs@);
    let mut i: usize = 0;
    while i < fields.len()
        invariant
            i <= fields@.len(),
            m == obj_view(pairs@),
            errors.deep_view() == validate_fields(m, fields.deep_view().take(i as int)),
        decreases fields@.len() - i,
    {
        let field = &fields[i];
        if field.required {
            let absent = match obj_get(pairs, field.key.as_str()) {
                None => true,
                Some(v) => v.is_null(),
            };
            if absent {
                let mut msg = "Field '".to_owned();
                msg.append(field.label.as_str());
                msg.append("' is required.");
                errors.push(msg);
            }
        }
        proof {
            let fv = fields.deep_view();
            assert(fv.take(i + 1).drop_last() =~= fv.take(i as int));
            assert(fv.take(i + 1).last() == fv[i as int]);
            assert(errors.deep_view() =~= validate_fields(m, fv.take(i + 1)));
        }
        i += 1;
    }
    proof {
        assert(fields.deep_view().take(fields.deep_view().len() as int) =~= fields.deep_view());
    }
    errors
}

/// With unique keys, the declared defaults bind exactly the declared keys,
/// each to its own field's default value.
pub proof fn lemma_defaults_map_exact(fields: Seq<FieldView>)
    requires
        forall|i: int, j: int| 0 <= i < j < fields.len() ==> fields[i].key != fields[j].key,
    ensures
        forall|k: Seq<char>| #[trigger]
            defaults_map(fields).contains_key(k) ==> exists|i: int|
                0 <= i < fields.len() && fields[i].key == k,
        forall|i: int|
            0 <= i < fields.len() ==> defaults_map(fields).contains_key(#[trigger] fields[i].key)
                && defaults_map(fields)[fields[i].key] == fields[i].default_value,
    decreases fields,
{
    if fields.len() > 0 {
        lemma_defaults_map_exact(fields.drop_last());
        assert forall|i: int|
            0 <= i < fields.len() implies defaults_map(fields).contains_key(
            #[trigger] fields[i].key,
        ) && defaults_map(fields)[fields[i].key] == fields[i].default_value by {
            if i < fields.len() - 1 {
                assert(fields.drop_last()[i] == fields[i]);
                assert(fields[i].key != fields.last().key);
            }
        }
    }
}

/// Merging is idempotent: merging the merged value over the same defaults
/// again changes nothing.
pub proof fn lemma_merge_idempotent(overrides: ValueView, defaults: ValueView)
    ensures
        merge_view(merge_view(overrides, defaults), defaults) == merge_view(overrides, defaults),
{
    match (overrides, defaults) {
        (ValueView::Obj(om), ValueView::Obj(dm)) => {
            assert(dm.union_prefer_right(dm.union_prefer_right(om)) =~= dm.union_prefer_right(om));
        },
        _ => {
            match defaults {
                ValueView::Obj(dm) => {
                    assert(dm.union_prefer_right(dm) =~= dm);
                },
                _ => {},
            }
        },
    }
}

/// Merging an empty override object returns the defaults unchanged.
pub proof fn lemma_merge_empty_overrides(defaults: ValueView)
    ensures
        merge_view(ValueView::Obj(Map::empty()), defaults) == defaults,
{
    match defaults {
        ValueView::Obj(dm) => {
            assert(dm.union_prefer_right(Map::empty()) =~= dm);
        },
        _ => {},
    }
}

/// Overrides of any non-object shape are discarded: the merge returns the
/// defaults unchanged.
pub proof fn lemma_merge_non_object(overrides: ValueView, defaults: ValueView)
    requires
        !(overrides is Obj),
    ensures
        merge_view(overrides, defaults) == defaults,
{
}

/// Validation of an object yields exactly one error, in field order, per
/// required field whose value is absent or null, and nothing else.
pub proof fn lemma_validate_exactly_missing(m: Map<Seq<char>, ValueView>, fields: Seq<FieldView>)
    ensures
        validate_fields(m, fields) == fields.filter(|f: FieldView| field_missing(m, f)).map_values(
            |f: FieldView| required_msg(f.label),
        ),
    decreases fields,
{
    reveal(Seq::filter);
    let pred = |f: FieldView| field_missing(m, f);
    let msg = |f: FieldView| required_msg(f.label);
    if fields.len() == 0 {
        assert(validate_fields(m, fields) =~= fields.filter(pred).map_values(msg));
    } else {
        lemma_validate_exactly_missing(m, fields.drop_last());
        assert(validate_fields(m, fields) =~= fields.filter(pred).map_values(msg));
    }
}

/// When every required field is present and non-null, validation of an
/// object yields no errors.
pub proof fn lemma_validate_no_missing(m: Map<Seq<char>, ValueView>, fields: Seq<FieldView>)
    requires
        forall|i: int| 0 <= i < fields.len() ==> !field_missing(m, #[trigger] fields[i]),
    ensures
        validate_fields(m, fields) == Seq::<Seq<char>>::empty(),
    decreases fields,
{
    if fields.len() > 0 {
        assert(fields.last() == fields[fields.len() - 1]);
        lemma_validate_no_missing(m, fields.drop_last());
        assert(validate_fields(m, fields) =~= Seq::<Seq<char>>::empty());
    } else {
        assert(validate_fields(m, fields) =~= Seq::<Seq<char>>::empty());
    }
}

/// A non-object settings value yields exactly the one generic error, and no
/// per-field error.
pub proof fn lemma_validate_non_object(v: ValueView, fields: Seq<FieldView>)
    requires
        !(v is Obj),
    ensures
        validate_view(v, fields) == seq![not_object_msg()],
{
}

} // verus!
