//! The call descriptor: the ordered argument list of one invocation. It holds
//! the positional arguments, then a name and a value for each optional
//! parameter that is present, then the sentinel that ends the list.

use vstd::prelude::*;
use crate::registry::AbiType;
use crate::text::CText;
use crate::value::{value_type, ArgValue, ValueModel};

verus! {

/// One positional argument.
#[derive(Debug)]
pub enum Positional {
    /// A value known before the call.
    Value(ArgValue),
    /// The slot into which the native side writes the handle it produces.
    OutputSlot,
}

/// What a [`Positional`] holds, as mathematics.
pub enum PositionalModel {
    Value(ValueModel),
    OutputSlot,
}

impl View for Positional {
    type V = PositionalModel;

    open spec fn view(&self) -> PositionalModel {
        match *self {
            Positional::Value(v) => PositionalModel::Value(v@),
            Positional::OutputSlot => PositionalModel::OutputSlot,
        }
    }
}

/// An optional parameter of an operation: its name, and its value if the
/// caller gave one.
#[derive(Debug)]
pub struct OptionalParameter {
    pub name: CText,
    pub value: Option<ArgValue>,
}

/// What an [`OptionalParameter`] holds, as mathematics.
pub struct SlotModel {
    pub name: Seq<u8>,
    pub value: Option<ValueModel>,
}

impl View for OptionalParameter {
    type V = SlotModel;

    open spec fn view(&self) -> SlotModel {
        SlotModel {
            name: self.name@,
            value: match self.value {
                Some(v) => Some(v@),
                None => None,
            },
        }
    }
}

/// One entry of a descriptor.
#[derive(Debug)]
pub enum Argument {
    Value(ArgValue),
    /// The name of the optional parameter whose value follows.
    Name(CText),
    OutputSlot,
    /// The null pointer that ends the list.
    Sentinel,
}

/// What an [`Argument`] holds, as mathematics.
pub enum ArgumentModel {
    Value(ValueModel),
    Name(Seq<u8>),
    OutputSlot,
    Sentinel,
}

impl View for Argument {
    type V = ArgumentModel;

    open spec fn view(&self) -> ArgumentModel {
        match *self {
            Argument::Value(v) => ArgumentModel::Value(v@),
            Argument::Name(n) => ArgumentModel::Name(n@),
            Argument::OutputSlot => ArgumentModel::OutputSlot,
            Argument::Sentinel => ArgumentModel::Sentinel,
        }
    }
}

/// The native type an entry is passed as. Names, the output slot and the
/// sentinel are pointers.
pub open spec fn argument_type(a: ArgumentModel) -> AbiType {
    match a {
        ArgumentModel::Value(v) => value_type(v),
        ArgumentModel::Name(_) => AbiType::Pointer,
        ArgumentModel::OutputSlot => AbiType::Pointer,
        ArgumentModel::Sentinel => AbiType::Pointer,
    }
}

impl Argument {
    /// The native type this entry is passed as.
    pub fn abi_type(&self) -> (t: AbiType)
        ensures
            t == argument_type(self@),
    {
        match self {
            Argument::Value(v) => v.abi_type(),
            Argument::Name(_) => AbiType::Pointer,
            Argument::OutputSlot => AbiType::Pointer,
            Argument::Sentinel => AbiType::Pointer,
        }
    }
}

/// The positional arguments of a list, each as mathematics.
pub open spec fn positional_models(v: Seq<Positional>) -> Seq<PositionalModel> {
    Seq::new(v.len(), |i: int| v[i]@)
}

/// The optional parameters of a list, each as mathematics.
pub open spec fn slot_models(v: Seq<OptionalParameter>) -> Seq<SlotModel> {
    Seq::new(v.len(), |i: int| v[i]@)
}

/// The entries of a list, each as mathematics.
pub open spec fn argument_models(v: Seq<Argument>) -> Seq<ArgumentModel> {
    Seq::new(v.len(), |i: int| v[i]@)
}

/// A positional argument as a descriptor entry.
pub open spec fn positional_entry(p: PositionalModel) -> ArgumentModel {
    match p {
        PositionalModel::Value(v) => ArgumentModel::Value(v),
        PositionalModel::OutputSlot => ArgumentModel::OutputSlot,
    }
}

/// The positional prefix of a descriptor.
pub open spec fn positional_part(positional: Seq<PositionalModel>) -> Seq<ArgumentModel> {
    Seq::new(positional.len(), |i: int| positional_entry(positional[i]))
}

/// The optional tail of a descriptor: for each slot that is present, in the
/// order of the slots, its name and then its value. An absent slot adds
/// nothing.
pub open spec fn optional_part(slots: Seq<SlotModel>) -> Seq<ArgumentModel>
    decreases slots.len(),
{
    if slots.len() == 0 {
        Seq::empty()
    } else {
        let before = optional_part(slots.drop_last());
        match slots.last().value {
            Some(v) => before.push(ArgumentModel::Name(slots.last().name)).push(
                ArgumentModel::Value(v),
            ),
            None => before,
        }
    }
}

/// How many of the slots are present.
pub open spec fn present_count(slots: Seq<SlotModel>) -> nat
    decreases slots.len(),
{
    if slots.len() == 0 {
        0
    } else {
        present_count(slots.drop_last()) + if slots.last().value is Some {
            1nat
        } else {
            0nat
        }
    }
}

/// The slots that are present, in their order.
pub open spec fn present_slots(slots: Seq<SlotModel>) -> Seq<SlotModel> {
    slots.filter(|s: SlotModel| s.value is Some)
}

/// The argument list of a call with these positional arguments and these
/// optional parameters.
pub open spec fn describe(positional: Seq<PositionalModel>, slots: Seq<SlotModel>) -> Seq<
    ArgumentModel,
> {
    positional_part(positional) + optional_part(slots) + seq![ArgumentModel::Sentinel]
}

/// The parallel list of native types.
pub open spec fn type_list(arguments: Seq<ArgumentModel>) -> Seq<AbiType> {
    Seq::new(arguments.len(), |i: int| argument_type(arguments[i]))
}

/// What a [`CallDescriptor`] holds, as mathematics.
pub struct DescriptorModel {
    pub arguments: Seq<ArgumentModel>,
    /// How many of the arguments are positional; the rest is the variadic
    /// tail.
    pub fixed: nat,
}

/// The shape every descriptor has: a positional prefix without names or
/// sentinel, then names and values in turn, then the sentinel, once.
pub open spec fn well_formed(d: DescriptorModel) -> bool {
    &&& d.fixed < d.arguments.len()
    &&& (d.arguments.len() - d.fixed - 1) % 2 == 0
    &&& forall|i: int|
        0 <= i < d.fixed ==> (#[trigger] d.arguments[i] is Value || d.arguments[i] is OutputSlot)
    &&& forall|i: int|
        d.fixed <= i < d.arguments.len() - 1 ==> if (i - d.fixed) % 2 == 0 {
            #[trigger] d.arguments[i] is Name
        } else {
            d.arguments[i] is Value
        }
    &&& d.arguments.last() is Sentinel
}

/// The argument list of one invocation.
#[derive(Debug)]
pub struct CallDescriptor {
    arguments: Vec<Argument>,
    fixed: usize,
}

impl View for CallDescriptor {
    type V = DescriptorModel;

    closed spec fn view(&self) -> DescriptorModel {
        DescriptorModel { arguments: argument_models(self.arguments@), fixed: self.fixed as nat }
    }
}

impl CallDescriptor {
    #[verifier::type_invariant]
    spec fn shaped(self) -> bool {
        well_formed(self@)
    }

    /// Builds the descriptor of a call: the positional arguments as given,
    /// then name and value of each optional parameter that is present, in the
    /// order of `optional`, then the sentinel.
    pub fn build(positional: &Vec<Positional>, optional: &Vec<OptionalParameter>) -> (d:
        CallDescriptor)
        ensures
            d@.arguments == describe(positional_models(positional@), slot_models(optional@)),
            d@.fixed == positional.len(),
            well_formed(d@),
    {
        let ghost p = positional_models(positional@);
        let ghost s = slot_models(optional@);
        let mut arguments: Vec<Argument> = Vec::new();
        let mut i: usize = 0;
        while i < positional.len()
            invariant
                i <= positional.len(),
                p == positional_models(positional@),
                argument_models(arguments@) == positional_part(p.take(i as int)),
            decreases positional.len() - i,
        {
            let ghost before = arguments@;
            let entry = match &positional[i] {
                Positional::Value(v) => Argument::Value(v.duplicate()),
                Positional::OutputSlot => Argument::OutputSlot,
            };
            assert(entry@ == positional_entry(p[i as int]));
            arguments.push(entry);
            i = i + 1;
            assert(argument_models(arguments@) =~= argument_models(before).push(entry@));
            assert(positional_part(p.take(i as int)) =~= positional_part(
                p.take(i as int - 1),
            ).push(positional_entry(p[i as int - 1])));
        }
        assert(p.take(positional.len() as int) == p);
        let mut j: usize = 0;
        while j < optional.len()
            invariant
                j <= optional.len(),
                s == slot_models(optional@),
                argument_models(arguments@) == positional_part(p) + optional_part(
                    s.take(j as int),
                ),
            decreases optional.len() - j,
        {
            let ghost before = arguments@;
            let slot = &optional[j];
            assert(s.take(j as int + 1).drop_last() =~= s.take(j as int));
            assert(s.take(j as int + 1).last() == slot@);
            match &slot.value {
                Some(v) => {
                    let name = Argument::Name(slot.name.duplicate());
                    let value = Argument::Value(v.duplicate());
                    assert(optional_part(s.take(j as int + 1)) == optional_part(
                        s.take(j as int),
                    ).push(name@).push(value@));
                    arguments.push(name);
                    arguments.push(value);
                    assert(argument_models(arguments@) =~= argument_models(before).push(
                        name@,
                    ).push(value@));
                },
                None => {
                    assert(optional_part(s.take(j as int + 1)) == optional_part(
                        s.take(j as int),
                    ));
                },
            }
            j = j + 1;
            assert(argument_models(arguments@) =~= positional_part(p) + optional_part(
                s.take(j as int),
            ));
        }
        assert(s.take(optional.len() as int) == s);
        let ghost before = arguments@;
        arguments.push(Argument::Sentinel);
        assert(argument_models(arguments@) =~= argument_models(before).push(
            ArgumentModel::Sentinel,
        ));
        assert(argument_models(arguments@) =~= describe(p, s));
        proof {
            lemma_describe_well_formed(p, s);
        }
        CallDescriptor { arguments, fixed: positional.len() }
    }

    /// The entries, in call order.
    pub fn arguments(&self) -> (entries: &Vec<Argument>)
        ensures
            argument_models(entries@) == self@.arguments,
            well_formed(self@),
    {
        proof {
            use_type_invariant(self);
        }
        &self.arguments
    }

    /// How many entries there are, the sentinel included.
    pub fn len(&self) -> (n: usize)
        ensures
            n == self@.arguments.len(),
            n > self@.fixed,
    {
        proof {
            use_type_invariant(self);
        }
        self.arguments.len()
    }

    /// How many entries are positional. The entries after them are the
    /// variadic tail.
    pub fn fixed_count(&self) -> (n: usize)
        ensures
            n == self@.fixed,
            n < self@.arguments.len(),
    {
        proof {
            use_type_invariant(self);
        }
        self.fixed
    }

    /// How many optional parameters the descriptor carries.
    pub fn optional_count(&self) -> (n: usize)
        ensures
            self@.arguments.len() == self@.fixed + 2 * n + 1,
    {
        proof {
            use_type_invariant(self);
        }
        (self.arguments.len() - self.fixed - 1) / 2
    }

    /// The native type of each entry, in call order.
    pub fn types(&self) -> (types: Vec<AbiType>)
        ensures
            types@ == type_list(self@.arguments),
    {
        let mut types: Vec<AbiType> = Vec::new();
        let mut i: usize = 0;
        while i < self.arguments.len()
            invariant
                i <= self.arguments.len(),
                types@ == type_list(argument_models(self.arguments@).take(i as int)),
            decreases self.arguments.len() - i,
        {
            types.push(self.arguments[i].abi_type());
            i = i + 1;
            assert(types@ =~= type_list(argument_models(self.arguments@).take(i as int)));
        }
        assert(argument_models(self.arguments@).take(self.arguments.len() as int)
            == argument_models(self.arguments@));
        types
    }
}

/// The optional tail holds two entries for each slot that is present.
pub proof fn lemma_optional_part_len(slots: Seq<SlotModel>)
    ensures
        optional_part(slots).len() == 2 * present_count(slots),
    decreases slots.len(),
{
    if slots.len() > 0 {
        lemma_optional_part_len(slots.drop_last());
    }
}

/// In the optional tail names stand at the even places and values at the odd
/// ones.
pub proof fn lemma_optional_part_alternates(slots: Seq<SlotModel>)
    ensures
        forall|i: int|
            0 <= i < optional_part(slots).len() ==> if i % 2 == 0 {
                #[trigger] optional_part(slots)[i] is Name
            } else {
                optional_part(slots)[i] is Value
            },
    decreases slots.len(),
{
    if slots.len() > 0 {
        lemma_optional_part_alternates(slots.drop_last());
        lemma_optional_part_len(slots.drop_last());
    }
}

/// What `describe` gives is well formed.
pub proof fn lemma_describe_well_formed(positional: Seq<PositionalModel>, slots: Seq<SlotModel>)
    ensures
        well_formed(
            DescriptorModel { arguments: describe(positional, slots), fixed: positional.len() },
        ),
{
    let d = DescriptorModel { arguments: describe(positional, slots), fixed: positional.len() };
    lemma_optional_part_len(slots);
    lemma_optional_part_alternates(slots);
    let tail = optional_part(slots);
    assert forall|i: int| d.fixed <= i < d.arguments.len() - 1 implies if (i - d.fixed) % 2 == 0 {
        #[trigger] d.arguments[i] is Name
    } else {
        d.arguments[i] is Value
    } by {
        assert(d.arguments[i] == tail[i - d.fixed]);
    }
    assert forall|i: int| 0 <= i < d.fixed implies (#[trigger] d.arguments[i] is Value
        || d.arguments[i] is OutputSlot) by {
        assert(d.arguments[i] == positional_entry(positional[i]));
    }
}

/// A descriptor has one entry for each positional argument, two for each
/// optional parameter that is present and one for the sentinel, and the
/// sentinel stands last.
pub proof fn lemma_descriptor_length(positional: Seq<PositionalModel>, slots: Seq<SlotModel>)
    ensures
        describe(positional, slots).len() == positional.len() + 2 * present_count(slots) + 1,
        describe(positional, slots).last() == ArgumentModel::Sentinel,
        forall|i: int|
            0 <= i < describe(positional, slots).len() - 1 ==> !(#[trigger] describe(
                positional,
                slots,
            )[i] is Sentinel),
{
    lemma_optional_part_len(slots);
    lemma_describe_well_formed(positional, slots);
    let d = describe(positional, slots);
    assert forall|i: int| 0 <= i < d.len() - 1 implies !(#[trigger] d[i] is Sentinel) by {
        if i >= positional.len() {
            if (i - positional.len()) % 2 == 0 {
                assert(d[i] is Name);
            } else {
                assert(d[i] is Value);
            }
        } else {
            assert(d[i] is Value || d[i] is OutputSlot);
        }
    }
}

/// The positional prefix of a descriptor is the positional arguments as they
/// were given, whatever optional parameters follow.
pub proof fn lemma_positional_prefix_kept(positional: Seq<PositionalModel>, slots: Seq<SlotModel>)
    ensures
        describe(positional, slots).take(positional.len() as int) == positional_part(positional),
{
    assert(describe(positional, slots).take(positional.len() as int) =~= positional_part(
        positional,
    ));
}

/// An absent optional parameter adds nothing: the descriptor is the one
/// built from the present parameters alone.
pub proof fn lemma_absent_adds_nothing(positional: Seq<PositionalModel>, slots: Seq<SlotModel>)
    ensures
        describe(positional, slots) == describe(positional, present_slots(slots)),
        present_count(slots) == 0 ==> describe(positional, slots) == positional_part(
            positional,
        ).push(ArgumentModel::Sentinel),
{
    lemma_optional_part_of_present(slots);
    lemma_optional_part_len(slots);
    assert(optional_part(slots).len() == 0 ==> optional_part(slots) =~= Seq::empty());
    if present_count(slots) == 0 {
        assert(describe(positional, slots) =~= positional_part(positional).push(
            ArgumentModel::Sentinel,
        ));
    }
}

/// The optional tail depends on the present slots only.
pub proof fn lemma_optional_part_of_present(slots: Seq<SlotModel>)
    ensures
        optional_part(slots) == optional_part(present_slots(slots)),
    decreases slots.len(),
{
    let present = |s: SlotModel| s.value is Some;
    reveal(Seq::filter);
    if slots.len() > 0 {
        lemma_optional_part_of_present(slots.drop_last());
        let kept = slots.drop_last().filter(present);
        if slots.last().value is Some {
            assert(slots.filter(present) == kept.push(slots.last()));
            assert(kept.push(slots.last()).drop_last() =~= kept);
            assert(kept.push(slots.last()).last() == slots.last());
        } else {
            assert(slots.filter(present) == kept);
        }
    } else {
        assert(slots.filter(present) =~= slots);
    }
}

/// Every name in the optional tail is the name of a slot that is present.
pub proof fn lemma_names_are_of_present_slots(slots: Seq<SlotModel>, k: int)
    requires
        0 <= k < optional_part(slots).len(),
        optional_part(slots)[k] is Name,
    ensures
        exists|i: int|
            0 <= i < slots.len() && (#[trigger] slots[i]).value is Some
                && optional_part(slots)[k] == ArgumentModel::Name(slots[i].name),
    decreases slots.len(),
{
    if slots.len() > 0 {
        let before = optional_part(slots.drop_last());
        if k < before.len() {
            assert(optional_part(slots)[k] == before[k]);
            lemma_names_are_of_present_slots(slots.drop_last(), k);
            let i = choose|i: int|
                0 <= i < slots.drop_last().len() && (#[trigger] slots.drop_last()[i]).value is Some
                    && before[k] == ArgumentModel::Name(slots.drop_last()[i].name);
            assert(slots[i] == slots.drop_last()[i]);
        } else {
            let i = slots.len() - 1;
            assert(slots[i].value is Some);
            assert(k == before.len());
        }
    }
}

/// Two calls whose present optional parameters have no name in common have
/// no name entry in common: an entry that names a parameter in the tail of
/// one occurs nowhere in the tail of the other.
pub proof fn lemma_disjoint_options_share_no_entry(a: Seq<SlotModel>, b: Seq<SlotModel>)
    requires
        forall|i: int, j: int|
            0 <= i < a.len() && 0 <= j < b.len() && (#[trigger] a[i]).value is Some && (
            #[trigger] b[j]).value is Some ==> a[i].name != b[j].name,
    ensures
        forall|m: int, n: int|
            0 <= m < optional_part(a).len() && 0 <= n < optional_part(b).len() && (
            #[trigger] optional_part(a)[m]) is Name ==> optional_part(a)[m] != (
            #[trigger] optional_part(b)[n]),
{
    assert forall|m: int, n: int|
        0 <= m < optional_part(a).len() && 0 <= n < optional_part(b).len() && (
        #[trigger] optional_part(a)[m]) is Name implies optional_part(a)[m] != (
    #[trigger] optional_part(b)[n]) by {
        if optional_part(b)[n] is Name {
            lemma_names_are_of_present_slots(a, m);
            lemma_names_are_of_present_slots(b, n);
        }
    }
}

} // verus!
