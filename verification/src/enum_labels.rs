//! The rules of `#[derive(DuckEnum)]`, which maps a Rust enum of unit variants onto a SQL `ENUM`:
//! the shape it accepts, the dictionary labels, the names it generates, and the label lookups of
//! the generated dictionary.

use vstd::prelude::*;
use crate::naming::{RenameRule, CreateTypeMode, renamed, snake_case, to_snake_case, text_eq};
use crate::error::{DuckError, duck_error_owned};
use crate::text::{debug_text, spec_debug_text};

verus! {

/// What a variant's `#[duck(...)]` attributes say about its label.
#[derive(Debug)]
pub enum VariantRename {
    /// No `rename`.
    Absent,
    /// `#[duck(rename = "...")]`.
    Label(String),
    /// An attribute that cannot be read (another key, or a value that is not a string).
    Invalid,
}

/// One variant of the enum, as far as the derive looks at it.
#[derive(Debug)]
pub struct VariantShape {
    /// The variant's name.
    pub name: String,
    /// Whether the variant carries no data.
    pub is_unit: bool,
    /// Its `rename` attribute.
    pub rename: VariantRename,
}

/// Why `#[derive(DuckEnum)]` refuses its input.
#[derive(Debug)]
pub enum EnumDeriveError {
    /// The input is not an enum.
    NotAnEnum,
    /// The enum has generic parameters.
    Generic,
    /// The enum has no variants.
    NoVariants,
    /// Variant `index` carries data.
    DataVariant {
        /// The variant.
        index: usize,
    },
    /// The `#[duck(...)]` attribute of variant `index` cannot be read.
    InvalidRename {
        /// The variant.
        index: usize,
    },
    /// Variant `index` gets a label an earlier variant already has.
    DuplicateLabel {
        /// The variant.
        index: usize,
        /// The label.
        label: String,
    },
}

/// The mathematical content of an [`EnumDeriveError`].
pub enum EnumErrorModel {
    NotAnEnum,
    Generic,
    NoVariants,
    DataVariant(int),
    InvalidRename(int),
    DuplicateLabel(int, Seq<char>),
}

impl View for EnumDeriveError {
    type V = EnumErrorModel;

    open spec fn view(&self) -> EnumErrorModel {
        match *self {
            EnumDeriveError::NotAnEnum => EnumErrorModel::NotAnEnum,
            EnumDeriveError::Generic => EnumErrorModel::Generic,
            EnumDeriveError::NoVariants => EnumErrorModel::NoVariants,
            EnumDeriveError::DataVariant { index } => EnumErrorModel::DataVariant(index as int),
            EnumDeriveError::InvalidRename { index } => EnumErrorModel::InvalidRename(index as int),
            EnumDeriveError::DuplicateLabel { index, label } => EnumErrorModel::DuplicateLabel(index as int, label@),
        }
    }
}

/// The compile error text of a refusal (an unreadable attribute keeps the parser's own message).
pub open spec fn enum_error_text(e: EnumErrorModel) -> Seq<char> {
    match e {
        EnumErrorModel::NotAnEnum => "`#[derive(DuckEnum)]` only supports enums"@,
        EnumErrorModel::Generic => "`#[derive(DuckEnum)]` does not support generics: a DuckDB ENUM has no type parameters"@,
        EnumErrorModel::NoVariants => "a DuckDB ENUM needs at least one variant"@,
        EnumErrorModel::DataVariant(_) => "`#[derive(DuckEnum)]` only supports unit variants: a DuckDB ENUM value carries no data"@,
        EnumErrorModel::InvalidRename(_) => "unsupported `#[duck(...)]` key on an enum variant: only `rename = \"...\"` is supported"@,
        EnumErrorModel::DuplicateLabel(_, label) => "duplicate ENUM label `"@ + label + "`: every variant needs a distinct label"@,
    }
}

impl EnumDeriveError {
    /// The compile error text of this refusal.
    pub fn message(&self) -> (m: String)
        ensures
            m@ == enum_error_text(self@),
    {
        match self {
            EnumDeriveError::NotAnEnum => String::from_str("`#[derive(DuckEnum)]` only supports enums"),
            EnumDeriveError::Generic => String::from_str("`#[derive(DuckEnum)]` does not support generics: a DuckDB ENUM has no type parameters"),
            EnumDeriveError::NoVariants => String::from_str("a DuckDB ENUM needs at least one variant"),
            EnumDeriveError::DataVariant { .. } => String::from_str("`#[derive(DuckEnum)]` only supports unit variants: a DuckDB ENUM value carries no data"),
            EnumDeriveError::InvalidRename { .. } => String::from_str("unsupported `#[duck(...)]` key on an enum variant: only `rename = \"...\"` is supported"),
            EnumDeriveError::DuplicateLabel { label, .. } => {
                let mut m = String::from_str("duplicate ENUM label `");
                m.append(label.as_str());
                m.append("`: every variant needs a distinct label");
                m
            },
        }
    }
}

/// Checks the shape of the input before its arguments are read: an enum, without generic
/// parameters, with at least one variant (in that order).
pub fn check_enum_shape(is_enum: bool, has_generics: bool, variant_count: usize) -> (r: Result<(), EnumDeriveError>)
    ensures
        r is Ok <==> is_enum && !has_generics && variant_count > 0,
        r matches Err(e) ==> e@ == (if !is_enum {
            EnumErrorModel::NotAnEnum
        } else if has_generics {
            EnumErrorModel::Generic
        } else {
            EnumErrorModel::NoVariants
        }),
{
    if !is_enum {
        Err(EnumDeriveError::NotAnEnum)
    } else if has_generics {
        Err(EnumDeriveError::Generic)
    } else if variant_count == 0 {
        Err(EnumDeriveError::NoVariants)
    } else {
        Ok(())
    }
}

/// The mathematical content of a variant.
pub struct VariantModel {
    pub name: Seq<char>,
    pub is_unit: bool,
    pub rename: Option<Option<Seq<char>>>,
}

/// The model of a variant; an unreadable `rename` is `None`, a readable one `Some`.
pub open spec fn variant_model(v: VariantShape) -> VariantModel {
    VariantModel {
        name: v.name@,
        is_unit: v.is_unit,
        rename: match v.rename {
            VariantRename::Absent => Some(None),
            VariantRename::Label(l) => Some(Some(l@)),
            VariantRename::Invalid => None,
        },
    }
}

/// The models of a list of variants.
pub open spec fn variants_model(vs: Seq<VariantShape>) -> Seq<VariantModel> {
    Seq::new(vs.len(), |i: int| variant_model(vs[i]))
}

/// The label of a variant: its `rename`, or the rule applied to its name.
pub open spec fn variant_label(v: VariantModel, rule: RenameRule) -> Seq<char> {
    match v.rename {
        Some(Some(l)) => l,
        _ => renamed(rule, v.name),
    }
}

/// The labels of the first `n` variants, or the first problem among them: variants in order,
/// for each one first whether it carries data, then whether its attribute reads, then whether its
/// label is new.
pub open spec fn labels_upto(vs: Seq<VariantModel>, rule: RenameRule, n: int) -> Result<Seq<Seq<char>>, EnumErrorModel>
    decreases n,
{
    if n <= 0 {
        Ok(Seq::empty())
    } else {
        match labels_upto(vs, rule, n - 1) {
            Err(e) => Err(e),
            Ok(prev) => {
                let v = vs[n - 1];
                if !v.is_unit {
                    Err(EnumErrorModel::DataVariant(n - 1))
                } else if v.rename is None {
                    Err(EnumErrorModel::InvalidRename(n - 1))
                } else if prev.contains(variant_label(v, rule)) {
                    Err(EnumErrorModel::DuplicateLabel(n - 1, variant_label(v, rule)))
                } else {
                    Ok(prev.push(variant_label(v, rule)))
                }
            },
        }
    }
}

/// What `#[derive(DuckEnum)]` generates, apart from the code itself.
#[derive(Debug)]
pub struct EnumPlan {
    /// The name of the private helper module: `__duck_enum_<snake_case name>`.
    pub module_name: String,
    /// The SQL name of the type: the `sql_name` argument, or the snake_case name.
    pub sql_name: String,
    /// The dictionary: one label per variant, in declaration order (the order is the index).
    pub labels: Vec<String>,
    /// What happens to the named type at load time.
    pub create_type: CreateTypeMode,
}

/// Plans a `#[derive(DuckEnum)]` whose shape passed [`check_enum_shape`]: every variant must
/// carry no data and read as a distinct label (its `rename`, or the `rename_all` rule — verbatim
/// by default — applied to its name).
pub fn plan_duck_enum(
    enum_name: &str,
    variants: &Vec<VariantShape>,
    rename_all: Option<RenameRule>,
    sql_name: Option<String>,
    create_type: Option<CreateTypeMode>,
) -> (r: Result<EnumPlan, EnumDeriveError>)
    ensures
        match (r, labels_upto(variants_model(variants@), rename_all.unwrap_or(RenameRule::Verbatim), variants@.len() as int)) {
            (Ok(p), Ok(labels)) => {
                &&& Seq::new(p.labels@.len(), |i: int| p.labels@[i]@) == labels
                &&& p.module_name@ == "__duck_enum_"@ + snake_case(enum_name@)
                &&& p.sql_name@ == match sql_name {
                    Some(s) => s@,
                    None => snake_case(enum_name@),
                }
                &&& p.create_type == create_type.unwrap_or(CreateTypeMode::Off)
            },
            (Err(e), Err(m)) => e@ == m,
            _ => false,
        },
{
    let rule = match rename_all {
        Some(rule) => rule,
        None => RenameRule::Verbatim,
    };
    let ghost vs = variants_model(variants@);
    let mut labels: Vec<String> = Vec::new();
    let mut i: usize = 0;
    assert(Seq::new(labels@.len(), |j: int| labels@[j]@) =~= Seq::<Seq<char>>::empty());
    while i < variants.len()
        invariant
            0 <= i <= variants@.len(),
            vs == variants_model(variants@),
            rule == rename_all.unwrap_or(RenameRule::Verbatim),
            labels_upto(vs, rule, i as int) == Ok::<Seq<Seq<char>>, EnumErrorModel>(Seq::new(labels@.len(), |j: int| labels@[j]@)),
        decreases variants@.len() - i,
    {
        let variant = &variants[i];
        assert(vs[i as int] == variant_model(*variant));
        if !variant.is_unit {
            proof {
                lemma_enum_error_stays(vs, rule, i as int + 1, vs.len() as int);
            }
            return Err(EnumDeriveError::DataVariant { index: i });
        }
        let label = match &variant.rename {
            VariantRename::Invalid => {
                proof {
                    lemma_enum_error_stays(vs, rule, i as int + 1, vs.len() as int);
                }
                return Err(EnumDeriveError::InvalidRename { index: i });
            },
            VariantRename::Label(l) => l.clone(),
            VariantRename::Absent => rule.apply(variant.name.as_str()),
        };
        let ghost prev = Seq::new(labels@.len(), |j: int| labels@[j]@);
        assert(label@ == variant_label(vs[i as int], rule));
        let mut k: usize = 0;
        while k < labels.len()
            invariant
                0 <= k <= labels@.len(),
                prev == Seq::new(labels@.len(), |j: int| labels@[j]@),
                forall|j: int| 0 <= j < k ==> prev[j] != label@,
                0 <= i < variants@.len(),
                vs == variants_model(variants@),
                vs.len() == variants@.len(),
                labels_upto(vs, rule, i as int) == Ok::<Seq<Seq<char>>, EnumErrorModel>(prev),
                label@ == variant_label(vs[i as int], rule),
                vs[i as int].is_unit,
                vs[i as int].rename is Some,
                rule == rename_all.unwrap_or(RenameRule::Verbatim),
            decreases labels@.len() - k,
        {
            if text_eq(labels[k].as_str(), label.as_str()) {
                assert(prev.contains(label@)) by {
                    assert(prev[k as int] == label@);
                }
                assert(labels_upto(vs, rule, i as int + 1) == Err::<Seq<Seq<char>>, EnumErrorModel>(EnumErrorModel::DuplicateLabel(i as int, label@)));
                proof {
                    lemma_enum_error_stays(vs, rule, i as int + 1, vs.len() as int);
                }
                return Err(EnumDeriveError::DuplicateLabel { index: i, label });
            }
            k = k + 1;
        }
        assert(!prev.contains(label@));
        labels.push(label);
        assert(Seq::new(labels@.len(), |j: int| labels@[j]@) =~= prev.push(variant_label(vs[i as int], rule)));
        i = i + 1;
    }
    let snake = to_snake_case(enum_name);
    let mut module_name = String::from_str("__duck_enum_");
    module_name.append(snake.as_str());
    let sql = match sql_name {
        Some(s) => s,
        None => to_snake_case(enum_name),
    };
    let mode = match create_type {
        Some(m) => m,
        None => CreateTypeMode::Off,
    };
    proof {
        reveal_strlit("__duck_enum_");
    }
    Ok(EnumPlan { module_name, sql_name: sql, labels, create_type: mode })
}

/// Once a prefix of the variants has a problem, every longer prefix has the same one.
proof fn lemma_enum_error_stays(vs: Seq<VariantModel>, rule: RenameRule, n: int, m: int)
    requires
        0 < n <= m,
        labels_upto(vs, rule, n) is Err,
    ensures
        labels_upto(vs, rule, m) == labels_upto(vs, rule, n),
    decreases m - n,
{
    if m > n {
        lemma_enum_error_stays(vs, rule, n, m - 1);
    }
}

/// The labels a derive accepts are distinct.
pub proof fn lemma_labels_distinct(vs: Seq<VariantModel>, rule: RenameRule, n: int)
    requires
        labels_upto(vs, rule, n) is Ok,
    ensures
        forall|i: int, j: int| 0 <= i < j < labels_upto(vs, rule, n)->Ok_0.len()
            ==> #[trigger] labels_upto(vs, rule, n)->Ok_0[i] != #[trigger] labels_upto(vs, rule, n)->Ok_0[j],
        n >= 0 ==> labels_upto(vs, rule, n)->Ok_0.len() == n,
    decreases n,
{
    if n > 0 {
        lemma_labels_distinct(vs, rule, n - 1);
        let prev = labels_upto(vs, rule, n - 1)->Ok_0;
        let all = labels_upto(vs, rule, n)->Ok_0;
        assert forall|i: int, j: int| 0 <= i < j < all.len() implies #[trigger] all[i] != #[trigger] all[j] by {
            if j == all.len() - 1 {
                assert(all[i] == prev[i]);
                assert(!prev.contains(all[j]));
            } else {
                assert(all[i] == prev[i]);
                assert(all[j] == prev[j]);
            }
        }
    }
}

/// The index of the first dictionary member equal to `label`, if any.
pub open spec fn member_index(members: Seq<Seq<char>>, label: Seq<char>) -> Option<int>
    decreases members.len(),
{
    if members.len() == 0 {
        None
    } else {
        match member_index(members.drop_last(), label) {
            Some(i) => Some(i),
            None => if members.last() == label { Some(members.len() - 1) } else { None },
        }
    }
}

/// In a dictionary of distinct labels, looking up member `i`'s label finds `i`: reading a value
/// back by its label gives the variant it was written from.
pub proof fn lemma_member_index_round_trip(members: Seq<Seq<char>>, i: int)
    requires
        0 <= i < members.len(),
        forall|a: int, b: int| 0 <= a < b < members.len() ==> #[trigger] members[a] != #[trigger] members[b],
    ensures
        member_index(members, members[i]) == Some(i),
    decreases members.len(),
{
    if i < members.len() - 1 {
        let p = members.drop_last();
        assert forall|a: int, b: int| 0 <= a < b < p.len() implies #[trigger] p[a] != #[trigger] p[b] by {
            assert(p[a] == members[a]);
            assert(p[b] == members[b]);
        }
        lemma_member_index_round_trip(p, i);
        assert(p[i] == members[i]);
    } else {
        lemma_member_index_none(members.drop_last(), members[i]);
    }
}

/// A label that is no member of the dictionary is found nowhere: reading it back gives no
/// variant.
pub proof fn lemma_member_index_none(members: Seq<Seq<char>>, label: Seq<char>)
    requires
        !members.contains(label),
    ensures
        member_index(members, label) is None,
    decreases members.len(),
{
    if members.len() > 0 {
        assert(!members.drop_last().contains(label)) by {
            if members.drop_last().contains(label) {
                let k = choose|k: int| 0 <= k < members.drop_last().len() && members.drop_last()[k] == label;
                assert(members[k] == label);
            }
        }
        lemma_member_index_none(members.drop_last(), label);
        assert(members.last() != label) by {
            if members.last() == label {
                assert(members[members.len() - 1] == label);
            }
        }
    }
}

/// The dictionary index of an `ENUM` label (the first member equal to it); `None` when the label
/// is not a member.
pub fn member_position(members: &[&str], label: &str) -> (r: Option<u32>)
    requires
        members@.len() <= u32::MAX,
    ensures
        match (r, member_index(Seq::new(members@.len(), |i: int| members@[i]@), label@)) {
            (Some(i), Some(j)) => i == j,
            (None, None) => true,
            _ => false,
        },
{
    let ghost m = Seq::new(members@.len(), |i: int| members@[i]@);
    let mut i: usize = 0;
    assert(m.take(0) =~= Seq::<Seq<char>>::empty());
    while i < members.len()
        invariant
            0 <= i <= members@.len(),
            members@.len() <= u32::MAX,
            m == Seq::new(members@.len(), |i: int| members@[i]@),
            member_index(m.take(i as int), label@) is None,
        decreases members@.len() - i,
    {
        assert(m.take(i as int + 1).drop_last() =~= m.take(i as int));
        if text_eq(members[i], label) {
            assert(m.take(i as int + 1).last() == label@);
            proof {
                lemma_member_index_prefix(m, i as int + 1, label@);
            }
            return Some(i as u32);
        }
        i = i + 1;
    }
    assert(m.take(members@.len() as int) =~= m);
    None
}

/// A member found among the first `n` is found at the same index among all.
proof fn lemma_member_index_prefix(members: Seq<Seq<char>>, n: int, label: Seq<char>)
    requires
        0 <= n <= members.len(),
        member_index(members.take(n), label) is Some,
    ensures
        member_index(members, label) == member_index(members.take(n), label),
    decreases members.len() - n,
{
    if n == members.len() {
        assert(members.take(n) =~= members);
    } else {
        assert(members.take(n + 1).drop_last() =~= members.take(n));
        lemma_member_index_prefix(members, n + 1, label);
    }
}

/// The `{:?}` rendering of a list of texts: `[` + each text's rendering, separated by `, ` + `]`.
pub open spec fn debug_list_upto(items: Seq<Seq<char>>, n: int) -> Seq<char>
    decreases n,
{
    if n <= 0 {
        Seq::empty()
    } else if n == 1 {
        spec_debug_text(items[0])
    } else {
        debug_list_upto(items, n - 1) + ", "@ + spec_debug_text(items[n - 1])
    }
}

/// The message for a label that is not a member of an `ENUM` dictionary.
pub open spec fn not_a_member_message(label: Seq<char>, sql_name: Seq<char>, members: Seq<Seq<char>>) -> Seq<char> {
    "ENUM value "@ + spec_debug_text(label) + " is not a member of the `"@ + sql_name + "` dictionary ["@
        + debug_list_upto(members, members.len() as int) + "]"@
}

/// The error for a label that is not a member of the `ENUM` dictionary `members` of type
/// `sql_name`.
pub fn not_a_member_error(label: &str, sql_name: &str, members: &[&str]) -> (e: DuckError)
    ensures
        e.spec_message() == not_a_member_message(label@, sql_name@, Seq::new(members@.len(), |i: int| members@[i]@)),
{
    let ghost m = Seq::new(members@.len(), |i: int| members@[i]@);
    let mut text = String::from_str("ENUM value ");
    text.append(debug_text(label).as_str());
    text.append(" is not a member of the `");
    text.append(sql_name);
    text.append("` dictionary [");
    let mut list = String::new();
    let mut i: usize = 0;
    while i < members.len()
        invariant
            0 <= i <= members@.len(),
            m == Seq::new(members@.len(), |i: int| members@[i]@),
            list@ == debug_list_upto(m, i as int),
        decreases members@.len() - i,
    {
        if i > 0 {
            list.append(", ");
        }
        list.append(debug_text(members[i]).as_str());
        i = i + 1;
    }
    text.append(list.as_str());
    text.append("]");
    duck_error_owned(text)
}

} // verus!
