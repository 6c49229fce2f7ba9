//! From an error enum's declaration and the written settings to the plan of
//! what is built for it: names, buffer size, format, and one display arm per
//! variant.

use vstd::prelude::*;
use vstd::string::*;
use crate::options::{format_of, or_text, Format, FormatView, ResExtArgs, ResExtArgsView, DEFAULT_BUF_SIZE};
use crate::text::views;

verus! {

/// The fields that an enum variant declares.
pub enum Fields {
    /// No fields: `Variant`.
    Unit,
    /// This many positional fields: `Variant(A, B)`.
    Unnamed(usize),
    /// Named fields, by name and in order: `Variant { a: A }`.
    Named(Vec<String>),
}

/// Mathematical value of a [`Fields`].
pub ghost enum FieldsView {
    Unit,
    Unnamed(usize),
    Named(Seq<Seq<char>>),
}

impl View for Fields {
    type V = FieldsView;

    open spec fn view(&self) -> FieldsView {
        match self {
            Fields::Unit => FieldsView::Unit,
            Fields::Unnamed(n) => FieldsView::Unnamed(*n),
            Fields::Named(names) => FieldsView::Named(views(names@)),
        }
    }
}

/// One variant of the declared enum.
pub struct Variant {
    pub name: String,
    pub fields: Fields,
}

/// Mathematical value of a [`Variant`].
pub ghost struct VariantView {
    pub name: Seq<char>,
    pub fields: FieldsView,
}

impl View for Variant {
    type V = VariantView;

    open spec fn view(&self) -> VariantView {
        VariantView { name: self.name@, fields: self.fields@ }
    }
}

/// What kind of item the attribute was put on.
pub enum Data {
    /// An enum with these variants, in order.
    Enum(Vec<Variant>),
    /// A struct or a union.
    Other,
}

/// Mathematical value of a [`Data`].
pub ghost enum DataView {
    Enum(Seq<VariantView>),
    Other,
}

impl View for Data {
    type V = DataView;

    open spec fn view(&self) -> DataView {
        match self {
            Data::Enum(variants) => DataView::Enum(views(variants@)),
            Data::Other => DataView::Other,
        }
    }
}

/// The declaration that the settings are applied to.
pub struct Item {
    pub name: String,
    pub data: Data,
}

/// Mathematical value of an [`Item`].
pub ghost struct ItemView {
    pub name: Seq<char>,
    pub data: DataView,
}

impl View for Item {
    type V = ItemView;

    open spec fn view(&self) -> ItemView {
        ItemView { name: self.name@, data: self.data@ }
    }
}

/// How one variant of the enum is shown.
pub enum Arm {
    /// `Variant(value)`: shows the value.
    Tuple { variant: String },
    /// `Variant { field }`: shows the field's value.
    Named { variant: String, field: String },
    /// `Variant`: shows its own name.
    Unit { variant: String },
}

/// Mathematical value of an [`Arm`].
pub ghost enum ArmView {
    Tuple { variant: Seq<char> },
    Named { variant: Seq<char>, field: Seq<char> },
    Unit { variant: Seq<char> },
}

impl View for Arm {
    type V = ArmView;

    open spec fn view(&self) -> ArmView {
        match self {
            Arm::Tuple { variant } => ArmView::Tuple { variant: variant@ },
            Arm::Named { variant, field } => ArmView::Named { variant: variant@, field: field@ },
            Arm::Unit { variant } => ArmView::Unit { variant: variant@ },
        }
    }
}

/// What an enum value of the variant behind `arm` shows, `value` being what
/// its field shows: the value alone, or after the names when
/// `include_variant` is set; a variant without a field shows its name.
pub open spec fn arm_text(arm: ArmView, include_variant: bool, value: Seq<char>) -> Seq<char> {
    match arm {
        ArmView::Tuple { variant } => if include_variant {
            variant + ": "@ + value
        } else {
            value
        },
        ArmView::Named { variant, field } => if include_variant {
            variant + ": "@ + field + ": "@ + value
        } else {
            value
        },
        ArmView::Unit { variant } => variant,
    }
}

impl Arm {
    /// The text shown for a value of this variant whose field shows `value`.
    pub fn render(&self, include_variant: bool, value: &str) -> (r: String)
        ensures
            r@ == arm_text(self@, include_variant, value@),
    {
        match self {
            Arm::Tuple { variant } => {
                if include_variant {
                    let mut out = variant.clone();
                    out.append(": ");
                    out.append(value);
                    out
                } else {
                    String::from_str(value)
                }
            },
            Arm::Named { variant, field } => {
                if include_variant {
                    let mut out = variant.clone();
                    out.append(": ");
                    out.append(field.as_str());
                    out.append(": ");
                    out.append(value);
                    out
                } else {
                    String::from_str(value)
                }
            },
            Arm::Unit { variant } => variant.clone(),
        }
    }
}

/// Everything that is built for one error enum.
pub struct Expansion {
    /// Name of the enum itself.
    pub enum_name: String,
    /// Name of the result alias.
    pub alias: String,
    /// Name of the wrapper that carries the enum and its context.
    pub struct_name: String,
    /// Name of the wrapper's context buffer.
    pub buf_name: String,
    /// Capacity of the context buffer in bytes.
    pub buf_size: usize,
    /// The strings placed around the parts of a displayed error.
    pub format: Format,
    /// Whether a variant's name is shown before its value.
    pub include_variant: bool,
    /// One arm per variant, in declaration order.
    pub arms: Vec<Arm>,
}

/// Mathematical value of an [`Expansion`].
pub ghost struct ExpansionView {
    pub enum_name: Seq<char>,
    pub alias: Seq<char>,
    pub struct_name: Seq<char>,
    pub buf_name: Seq<char>,
    pub buf_size: usize,
    pub format: FormatView,
    pub include_variant: bool,
    pub arms: Seq<ArmView>,
}

impl View for Expansion {
    type V = ExpansionView;

    open spec fn view(&self) -> ExpansionView {
        ExpansionView {
            enum_name: self.enum_name@,
            alias: self.alias@,
            struct_name: self.struct_name@,
            buf_name: self.buf_name@,
            buf_size: self.buf_size,
            format: self.format@,
            include_variant: self.include_variant,
            arms: views(self.arms@),
        }
    }
}

/// Why no expansion can be planned.
pub enum ExpandError {
    /// The item is not an enum.
    NotAnEnum,
    /// These variants, by position, have fields other than exactly one.
    Fields(Vec<usize>),
}

/// Mathematical value of an [`ExpandError`].
pub ghost enum ExpandErrorView {
    NotAnEnum,
    Fields(Seq<usize>),
}

impl View for ExpandError {
    type V = ExpandErrorView;

    open spec fn view(&self) -> ExpandErrorView {
        match self {
            ExpandError::NotAnEnum => ExpandErrorView::NotAnEnum,
            ExpandError::Fields(at) => ExpandErrorView::Fields(at@),
        }
    }
}

/// What is said of an [`ExpandError`], of each variant at fault in turn.
pub open spec fn expand_error_text(e: ExpandErrorView) -> Seq<char> {
    match e {
        ExpandErrorView::NotAnEnum => "`#[resext]` can only be applied to enums"@,
        ExpandErrorView::Fields(_) => "enum variants used in `#[resext]` can only have 1 field"@,
    }
}

impl ExpandError {
    /// The message for this error.
    pub fn message(&self) -> (r: String)
        ensures
            r@ == expand_error_text(self@),
    {
        match self {
            ExpandError::NotAnEnum => String::from_str("`#[resext]` can only be applied to enums"),
            ExpandError::Fields(_) => String::from_str(
                "enum variants used in `#[resext]` can only have 1 field",
            ),
        }
    }
}

/// A variant can be shown when it has no fields or exactly one.
pub open spec fn supported(fields: FieldsView) -> bool {
    match fields {
        FieldsView::Unit => true,
        FieldsView::Unnamed(n) => n == 1,
        FieldsView::Named(names) => names.len() == 1,
    }
}

/// The arm for a supported variant.
pub open spec fn arm_of(variant: VariantView) -> ArmView
    recommends
        supported(variant.fields),
{
    match variant.fields {
        FieldsView::Unit => ArmView::Unit { variant: variant.name },
        FieldsView::Unnamed(_) => ArmView::Tuple { variant: variant.name },
        FieldsView::Named(names) => ArmView::Named { variant: variant.name, field: names[0] },
    }
}

/// Positions below `n` of the variants that cannot be shown, ascending.
pub open spec fn unsupported_below(variants: Seq<VariantView>, n: nat) -> Seq<usize>
    decreases n,
{
    if n == 0 {
        Seq::empty()
    } else {
        let before = unsupported_below(variants, (n - 1) as nat);
        if supported(variants[n - 1].fields) {
            before
        } else {
            before.push((n - 1) as usize)
        }
    }
}

/// Positions of all the variants that cannot be shown, ascending.
pub open spec fn unsupported(variants: Seq<VariantView>) -> Seq<usize> {
    unsupported_below(variants, variants.len())
}

/// The name of the result alias: as written, else `Res`.
pub open spec fn alias_of(args: ResExtArgsView) -> Seq<char> {
    or_text(args.alias, "Res"@)
}

/// The buffer capacity: as written, else the default.
pub open spec fn buf_size_of(args: ResExtArgsView) -> usize {
    match args.buf_size {
        Some(n) => n,
        None => DEFAULT_BUF_SIZE,
    }
}

/// The plan for `item` under `args`, or why there is none.
pub open spec fn expansion_of(args: ResExtArgsView, item: ItemView) -> Result<
    ExpansionView,
    ExpandErrorView,
> {
    match item.data {
        DataView::Other => Err(ExpandErrorView::NotAnEnum),
        DataView::Enum(variants) => if unsupported(variants).len() > 0 {
            Err(ExpandErrorView::Fields(unsupported(variants)))
        } else {
            Ok(
                ExpansionView {
                    enum_name: item.name,
                    alias: alias_of(args),
                    struct_name: alias_of(args) + "Err"@,
                    buf_name: alias_of(args) + "Buf"@,
                    buf_size: buf_size_of(args),
                    format: format_of(args),
                    include_variant: args.include_variant,
                    arms: Seq::new(variants.len(), |i: int| arm_of(variants[i])),
                },
            )
        },
    }
}

/// Value of a planning result.
pub open spec fn outcome_view(r: Result<Expansion, ExpandError>) -> Result<
    ExpansionView,
    ExpandErrorView,
> {
    match r {
        Ok(e) => Ok(e@),
        Err(e) => Err(e@),
    }
}

/// Whether `fields` is no field or exactly one.
pub fn is_supported(fields: &Fields) -> (r: bool)
    ensures
        r == supported(fields@),
{
    match fields {
        Fields::Unit => true,
        Fields::Unnamed(n) => *n == 1,
        Fields::Named(names) => names.len() == 1,
    }
}

/// The arm that shows `variant`.
pub fn arm_for(variant: &Variant) -> (r: Arm)
    requires
        supported(variant.fields@),
    ensures
        r@ == arm_of(variant@),
{
    match &variant.fields {
        Fields::Unit => Arm::Unit { variant: variant.name.clone() },
        Fields::Unnamed(_) => Arm::Tuple { variant: variant.name.clone() },
        Fields::Named(names) => Arm::Named {
            variant: variant.name.clone(),
            field: names[0].clone(),
        },
    }
}

/// Plans what is built for `item` under the settings `args`.
///
/// Only an enum is accepted, and only one whose variants each have no field
/// or exactly one; otherwise every offending variant is reported.
pub fn resext(args: &ResExtArgs, item: &Item) -> (r: Result<Expansion, ExpandError>)
    ensures
        outcome_view(r) == expansion_of(args@, item@),
{
    let variants = match &item.data {
        Data::Enum(variants) => variants,
        Data::Other => {
            return Err(ExpandError::NotAnEnum);
        },
    };
    let ghost vs = views(variants@);
    let mut arms: Vec<Arm> = Vec::new();
    let mut bad: Vec<usize> = Vec::new();
    let mut i: usize = 0;
    while i < variants.len()
        invariant
            i <= variants@.len(),
            vs == views(variants@),
            bad@ == unsupported_below(vs, i as nat),
            bad@.len() == 0 ==> arms@.len() == i,
            bad@.len() == 0 ==> forall|j: int| 0 <= j < i ==> (#[trigger] arms@[j])@ == arm_of(vs[j]),
        decreases variants@.len() - i,
    {
        let variant = &variants[i];
        if is_supported(&variant.fields) {
            if bad.len() == 0 {
                arms.push(arm_for(variant));
            }
        } else {
            bad.push(i);
        }
        i = i + 1;
    }
    if bad.len() > 0 {
        return Err(ExpandError::Fields(bad));
    }
    let alias = crate::options::text_or(&args.alias, "Res");
    let mut struct_name = alias.clone();
    struct_name.append("Err");
    let mut buf_name = alias.clone();
    buf_name.append("Buf");
    let buf_size = match args.buf_size {
        Some(n) => n,
        None => DEFAULT_BUF_SIZE,
    };
    let plan = Expansion {
        enum_name: item.name.clone(),
        alias,
        struct_name,
        buf_name,
        buf_size,
        format: args.format(),
        include_variant: args.include_variant,
        arms,
    };
    proof {
        assert(plan@.arms =~= Seq::new(vs.len(), |i: int| arm_of(vs[i])));
    }
    Ok(plan)
}

} // verus!
