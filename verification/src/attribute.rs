//! Vertex-input slots: typed handles for attribute locations, the format
//! descriptor that maps buffer bytes onto a slot, and the location table
//! that resolves declared names against a linked program all-or-nothing.
use vstd::prelude::*;

use crate::context::{Command, Context};
use crate::program::Program;

verus! {

pub const BYTE: u32 = 0x1400;
pub const UNSIGNED_BYTE: u32 = 0x1401;
pub const SHORT: u32 = 0x1402;
pub const UNSIGNED_SHORT: u32 = 0x1403;
pub const FLOAT: u32 = 0x1406;
pub const FIXED: u32 = 0x140C;

/// The driver's boolean true as passed in call arguments.
pub const TRUE: u8 = 1;

/// The driver's boolean false as passed in call arguments.
pub const FALSE: u8 = 0;

/// A vertex-input slot of a linked program, identified by its resolved
/// location.
#[derive(Clone, Copy, PartialEq, Eq, Structural, Debug)]
pub struct Attribute(pub u32);

/// How many components one vertex pulls from the buffer for this input.
#[derive(Clone, Copy, PartialEq, Eq, Structural, Debug)]
pub enum AttributeSize {
    ONE,
    TWO,
    THREE,
    FOUR,
}

impl AttributeSize {
    /// The component count as passed to the driver.
    pub open spec fn count_spec(self) -> i32 {
        match self {
            AttributeSize::ONE => 1,
            AttributeSize::TWO => 2,
            AttributeSize::THREE => 3,
            AttributeSize::FOUR => 4,
        }
    }

    pub fn count(&self) -> (r: i32)
        ensures
            r == self.count_spec(),
    {
        match self {
            AttributeSize::ONE => 1,
            AttributeSize::TWO => 2,
            AttributeSize::THREE => 3,
            AttributeSize::FOUR => 4,
        }
    }

    /// The size a driver-call component count denotes, if any.
    pub open spec fn from_count_spec(count: i32) -> Option<AttributeSize> {
        if count == 1 {
            Some(AttributeSize::ONE)
        } else if count == 2 {
            Some(AttributeSize::TWO)
        } else if count == 3 {
            Some(AttributeSize::THREE)
        } else if count == 4 {
            Some(AttributeSize::FOUR)
        } else {
            None
        }
    }

    pub fn from_count(count: i32) -> (r: Option<AttributeSize>)
        ensures
            r == Self::from_count_spec(count),
    {
        if count == 1 {
            Some(AttributeSize::ONE)
        } else if count == 2 {
            Some(AttributeSize::TWO)
        } else if count == 3 {
            Some(AttributeSize::THREE)
        } else if count == 4 {
            Some(AttributeSize::FOUR)
        } else {
            None
        }
    }
}

/// The scalar type of each component as stored in the buffer.
#[derive(Clone, Copy, PartialEq, Eq, Structural, Debug)]
pub enum AttributeType {
    Byte,
    UnsignedByte,
    Short,
    UnsignedShort,
    Fixed,
    Float,
}

impl AttributeType {
    /// The driver's code for this scalar type.
    pub open spec fn code_spec(self) -> u32 {
        match self {
            AttributeType::Byte => BYTE,
            AttributeType::UnsignedByte => UNSIGNED_BYTE,
            AttributeType::Short => SHORT,
            AttributeType::UnsignedShort => UNSIGNED_SHORT,
            AttributeType::Fixed => FIXED,
            AttributeType::Float => FLOAT,
        }
    }

    pub fn code(&self) -> (r: u32)
        ensures
            r == self.code_spec(),
    {
        match self {
            AttributeType::Byte => BYTE,
            AttributeType::UnsignedByte => UNSIGNED_BYTE,
            AttributeType::Short => SHORT,
            AttributeType::UnsignedShort => UNSIGNED_SHORT,
            AttributeType::Fixed => FIXED,
            AttributeType::Float => FLOAT,
        }
    }

    /// The scalar type a driver code denotes, if any.
    pub open spec fn from_code_spec(code: u32) -> Option<AttributeType> {
        if code == BYTE {
            Some(AttributeType::Byte)
        } else if code == UNSIGNED_BYTE {
            Some(AttributeType::UnsignedByte)
        } else if code == SHORT {
            Some(AttributeType::Short)
        } else if code == UNSIGNED_SHORT {
            Some(AttributeType::UnsignedShort)
        } else if code == FIXED {
            Some(AttributeType::Fixed)
        } else if code == FLOAT {
            Some(AttributeType::Float)
        } else {
            None
        }
    }

    pub fn from_code(code: u32) -> (r: Option<AttributeType>)
        ensures
            r == Self::from_code_spec(code),
    {
        if code == BYTE {
            Some(AttributeType::Byte)
        } else if code == UNSIGNED_BYTE {
            Some(AttributeType::UnsignedByte)
        } else if code == SHORT {
            Some(AttributeType::Short)
        } else if code == UNSIGNED_SHORT {
            Some(AttributeType::UnsignedShort)
        } else if code == FIXED {
            Some(AttributeType::Fixed)
        } else if code == FLOAT {
            Some(AttributeType::Float)
        } else {
            None
        }
    }
}

/// How raw bytes in a buffer map to one shader input: component count,
/// scalar type, and whether integer values are normalised to [0, 1].
#[derive(Clone, Copy, PartialEq, Eq, Structural, Debug)]
pub struct AttributeFormat {
    pub size: AttributeSize,
    pub type_: AttributeType,
    pub normalized: bool,
}

impl AttributeFormat {
    /// The normalisation flag as passed to the driver.
    pub open spec fn normalized_flag_spec(self) -> u8 {
        if self.normalized {
            TRUE
        } else {
            FALSE
        }
    }

    /// The format a triple of driver-call values denotes, if any.
    pub open spec fn from_call_values_spec(size: i32, type_: u32, normalized: u8) -> Option<
        AttributeFormat,
    > {
        match (AttributeSize::from_count_spec(size), AttributeType::from_code_spec(type_)) {
            (Some(s), Some(t)) => {
                if normalized == TRUE {
                    Some(AttributeFormat { size: s, type_: t, normalized: true })
                } else if normalized == FALSE {
                    Some(AttributeFormat { size: s, type_: t, normalized: false })
                } else {
                    None
                }
            },
            _ => None,
        }
    }

    pub fn from_call_values(size: i32, type_: u32, normalized: u8) -> (r: Option<AttributeFormat>)
        ensures
            r == Self::from_call_values_spec(size, type_, normalized),
    {
        match (AttributeSize::from_count(size), AttributeType::from_code(type_)) {
            (Some(s), Some(t)) => {
                if normalized == TRUE {
                    Some(AttributeFormat { size: s, type_: t, normalized: true })
                } else if normalized == FALSE {
                    Some(AttributeFormat { size: s, type_: t, normalized: false })
                } else {
                    None
                }
            },
            _ => None,
        }
    }
}

/// A format descriptor round-trips through the values handed to the driver:
/// decoding the component count, scalar-type code and normalisation flag a
/// descriptor produces yields that descriptor again, unaltered.
pub proof fn lemma_format_round_trip(f: AttributeFormat)
    ensures
        AttributeFormat::from_call_values_spec(
            f.size.count_spec(),
            f.type_.code_spec(),
            f.normalized_flag_spec(),
        ) == Some(f),
{
}

impl Attribute {
    /// Set the instancing divisor of this slot. The target driver honours
    /// only the divisors 0 (per vertex) and 1 (per instance); that
    /// constraint is the driver's, documented here and not enforced.
    pub fn divisor(&self, ctx: &mut Context, divisor: u32)
        ensures
            *final(ctx) == old(ctx).with_commands(final(ctx).commands),
            final(ctx).commands@ == old(ctx).commands@.push(
                Command::VertexAttribDivisor { index: self.0, divisor },
            ),
    {
        ctx.submit(Command::VertexAttribDivisor { index: self.0, divisor });
    }

    /// Enable this vertex-input slot.
    pub fn enable(&self, ctx: &mut Context)
        ensures
            *final(ctx) == (Context {
                enabled: final(ctx).enabled,
                commands: final(ctx).commands,
                ..*old(ctx)
            }),
            final(ctx).commands@ == old(ctx).commands@.push(
                Command::EnableVertexAttribArray { index: self.0 },
            ),
            forall|l: u32|
                final(ctx).is_enabled(l) == (old(ctx).is_enabled(l) || l == self.0),
    {
        ctx.enabled.push(self.0);
        ctx.submit(Command::EnableVertexAttribArray { index: self.0 });
        proof {
            assert forall|l: u32|
                ctx.is_enabled(l) == (old(ctx).is_enabled(l) || l == self.0) by {
                let post = ctx.enabled@;
                let pre = old(ctx).enabled@;
                assert(post == pre.push(self.0));
                if l == self.0 {
                    assert(post[post.len() - 1] == l);
                    assert(post.contains(l));
                } else {
                    if pre.contains(l) {
                        let i = choose|i: int| 0 <= i < pre.len() && pre[i] == l;
                        assert(post[i] == l);
                    }
                    if post.contains(l) {
                        let i = choose|i: int| 0 <= i < post.len() && post[i] == l;
                        assert(pre[i] == l);
                    }
                }
            }
        }
    }

    /// Disable this vertex-input slot.
    pub fn disable(&self, ctx: &mut Context)
        ensures
            *final(ctx) == (Context {
                enabled: final(ctx).enabled,
                commands: final(ctx).commands,
                ..*old(ctx)
            }),
            final(ctx).commands@ == old(ctx).commands@.push(
                Command::DisableVertexAttribArray { index: self.0 },
            ),
            forall|l: u32|
                final(ctx).is_enabled(l) == (old(ctx).is_enabled(l) && l != self.0),
    {
        let n = ctx.enabled.len();
        let mut kept: Vec<u32> = Vec::new();
        let mut i: usize = 0;
        while i < n
            invariant
                i <= n,
                n == ctx.enabled@.len(),
                *ctx == *old(ctx),
                forall|l: u32|
                    kept@.contains(l) == (old(ctx).enabled@.subrange(0, i as int).contains(l)
                        && l != self.0),
            decreases n - i,
        {
            let v = ctx.enabled[i];
            let ghost pre_kept = kept@;
            if v != self.0 {
                kept.push(v);
            }
            proof {
                let sub1 = old(ctx).enabled@.subrange(0, i as int + 1);
                let sub0 = old(ctx).enabled@.subrange(0, i as int);
                assert(sub1 =~= sub0.push(v));
                assert forall|l: u32|
                    kept@.contains(l) == (sub1.contains(l) && l != self.0) by {
                    if l == v && l != self.0 {
                        assert(kept@[kept@.len() - 1] == l);
                        assert(kept@.contains(l));
                        assert(sub1[sub1.len() - 1] == l);
                        assert(sub1.contains(l));
                    } else {
                        assert(kept@ == if v != self.0 {
                            pre_kept.push(v)
                        } else {
                            pre_kept
                        });
                        if kept@.contains(l) {
                            let j = choose|j: int| 0 <= j < kept@.len() && kept@[j] == l;
                            if j < pre_kept.len() {
                                assert(pre_kept[j] == l);
                            }
                            assert(pre_kept.contains(l));
                            assert(sub0.contains(l));
                            let k = choose|k: int| 0 <= k < sub0.len() && sub0[k] == l;
                            assert(sub1[k] == l);
                        }
                        if sub1.contains(l) && l != self.0 {
                            let j = choose|j: int| 0 <= j < sub1.len() && sub1[j] == l;
                            if j < sub0.len() {
                                assert(sub0[j] == l);
                                assert(sub0.contains(l));
                                assert(pre_kept.contains(l));
                                let k = choose|k: int|
                                    0 <= k < pre_kept.len() && pre_kept[k] == l;
                                assert(kept@[k] == l);
                            } else {
                                assert(sub1[j] == v);
                            }
                        }
                    }
                }
            }
            i = i + 1;
        }
        proof {
            assert(old(ctx).enabled@.subrange(0, n as int) =~= old(ctx).enabled@);
        }
        ctx.enabled = kept;
        ctx.submit(Command::DisableVertexAttribArray { index: self.0 });
    }

    /// Describe to the driver how the buffer currently bound to the
    /// vertex-array target feeds this slot. The component count, scalar-type
    /// code and normalisation flag handed over are exactly the values the
    /// format descriptor stores.
    pub fn pointer(&self, ctx: &mut Context, format: AttributeFormat, stride: i32, offset: usize)
        ensures
            *final(ctx) == old(ctx).with_commands(final(ctx).commands),
            final(ctx).commands@ == old(ctx).commands@.push(
                Command::VertexAttribPointer {
                    index: self.0,
                    size: format.size.count_spec(),
                    type_: format.type_.code_spec(),
                    normalized: format.normalized_flag_spec(),
                    stride,
                    offset,
                },
            ),
    {
        let normalized: u8 = if format.normalized {
            TRUE
        } else {
            FALSE
        };
        ctx.submit(Command::VertexAttribPointer {
            index: self.0,
            size: format.size.count(),
            type_: format.type_.code(),
            normalized,
            stride,
            offset,
        });
    }
}

/// The declared names a location-table construction could not resolve, in
/// declaration order — always the complete list, never a prefix.
#[derive(Debug)]
pub struct MissingAttributes(pub Vec<String>);

/// A location table for vertex inputs: each declared name resolved against
/// one linked program, built all-or-nothing.
#[derive(Debug)]
pub struct AttributeTable {
    pub names: Vec<String>,
    pub attributes: Vec<Attribute>,
}

/// The program does not expose vertex input `n` (its location is negative).
pub open spec fn unresolved_attrib(p: Program, n: String) -> bool {
    p.attrib_location_spec(n@) < 0
}

/// Slot `l` is the location of one of the table's attributes.
pub open spec fn table_has_slot(attrs: Seq<Attribute>, l: u32) -> bool {
    exists|i: int| 0 <= i < attrs.len() && attrs[i].0 == l
}

/// How an "enable every slot of the table" pass changes which slots are
/// enabled.
pub open spec fn enable_all_rel(pre: Context, post: Context, attrs: Seq<Attribute>) -> bool {
    forall|l: u32| post.is_enabled(l) == (pre.is_enabled(l) || table_has_slot(attrs, l))
}

/// How a "disable every slot of the table" pass changes which slots are
/// enabled.
pub open spec fn disable_all_rel(pre: Context, post: Context, attrs: Seq<Attribute>) -> bool {
    forall|l: u32| post.is_enabled(l) == (pre.is_enabled(l) && !table_has_slot(attrs, l))
}

/// Enabling every slot of a table and then disabling every slot of the same
/// table leaves none of the table's slots enabled, and every other slot as
/// it was before the round trip.
pub proof fn lemma_enable_disable_round_trip(
    s1: Context,
    s2: Context,
    s3: Context,
    attrs: Seq<Attribute>,
)
    requires
        enable_all_rel(s1, s2, attrs),
        disable_all_rel(s2, s3, attrs),
    ensures
        forall|l: u32| table_has_slot(attrs, l) ==> !s3.is_enabled(l),
        forall|l: u32| !table_has_slot(attrs, l) ==> s3.is_enabled(l) == s1.is_enabled(l),
{
}

impl AttributeTable {
    /// The names of `names` that `p` does not expose, in declaration order.
    pub open spec fn missing_spec(p: Program, names: Seq<String>) -> Seq<String> {
        names.filter(|n: String| unresolved_attrib(p, n))
    }

    pub open spec fn wf(&self) -> bool {
        self.names@.len() == self.attributes@.len()
    }

    /// The table maps each of `names`, in order, to the location `p`
    /// reports for it.
    pub open spec fn resolves(&self, p: Program, names: Seq<String>) -> bool {
        &&& self.names@ == names
        &&& self.attributes@.len() == names.len()
        &&& forall|i: int|
            0 <= i < names.len() ==> (#[trigger] self.attributes@[i]).0 as int
                == p.attrib_location_spec(names[i]@)
    }

    /// Resolve every declared name against `p`. All-or-nothing: if any name
    /// is unresolved the whole construction fails and the error carries
    /// every unresolved name in declaration order; otherwise the table maps
    /// each name to its (non-negative) location.
    pub fn with_locations_from(p: &Program, names: Vec<String>) -> (r: Result<
        AttributeTable,
        MissingAttributes,
    >)
        requires
            p.wf(),
        ensures
            (r is Err) <==> Self::missing_spec(*p, names@).len() > 0,
            r matches Err(m) ==> m.0@ == Self::missing_spec(*p, names@),
            r matches Ok(t) ==> t.wf() && t.resolves(*p, names@),
    {
        let n = names.len();
        let mut locations: Vec<i32> = Vec::new();
        let mut missing: Vec<String> = Vec::new();
        let mut i: usize = 0;
        proof {
            reveal(Seq::filter);
            assert(names@.subrange(0, 0) =~= Seq::<String>::empty());
        }
        while i < n
            invariant
                i <= n,
                n == names@.len(),
                p.wf(),
                locations@.len() == i,
                forall|j: int|
                    0 <= j < i ==> #[trigger] locations@[j] as int == p.attrib_location_spec(
                        names@[j]@,
                    ),
                missing@ == Self::missing_spec(*p, names@.subrange(0, i as int)),
            decreases n - i,
        {
            let loc = p.get_attrib_location(&names[i]);
            locations.push(loc);
            let ghost pre_missing = missing@;
            if loc < 0 {
                missing.push(names[i].clone());
            }
            proof {
                reveal(Seq::filter);
                let sub1 = names@.subrange(0, i as int + 1);
                let sub0 = names@.subrange(0, i as int);
                assert(sub1.drop_last() =~= sub0);
                assert(sub1.last() == names@[i as int]);
                if loc < 0 {
                    assert(Self::missing_spec(*p, sub1) == Self::missing_spec(*p, sub0).push(
                        names@[i as int],
                    ));
                    assert(missing@ == pre_missing.push(names@[i as int]));
                } else {
                    assert(Self::missing_spec(*p, sub1) == Self::missing_spec(*p, sub0));
                }
            }
            i = i + 1;
        }
        proof {
            assert(names@.subrange(0, n as int) =~= names@);
        }
        if missing.len() > 0 {
            return Err(MissingAttributes(missing));
        }
        proof {
            lemma_missing_complete(*p, names@);
        }
        let mut attributes: Vec<Attribute> = Vec::new();
        let mut i: usize = 0;
        while i < n
            invariant
                i <= n,
                n == names@.len(),
                n == locations@.len(),
                attributes@.len() == i,
                forall|j: int|
                    0 <= j < n ==> #[trigger] locations@[j] as int == p.attrib_location_spec(
                        names@[j]@,
                    ),
                forall|j: int| 0 <= j < n ==> #[trigger] locations@[j] >= 0,
                forall|j: int|
                    0 <= j < i ==> (#[trigger] attributes@[j]).0 as int == p.attrib_location_spec(
                        names@[j]@,
                    ),
            decreases n - i,
        {
            attributes.push(Attribute(locations[i] as u32));
            i = i + 1;
        }
        Ok(AttributeTable { names, attributes })
    }

    /// The resolved attribute of the `i`-th declared name.
    pub fn attribute(&self, i: usize) -> (r: Attribute)
        requires
            i < self.attributes@.len(),
        ensures
            r == self.attributes@[i as int],
    {
        self.attributes[i]
    }

    /// Enable every slot in the table, in declaration order.
    pub fn enable_all(&self, ctx: &mut Context)
        ensures
            *final(ctx) == (Context {
                enabled: final(ctx).enabled,
                commands: final(ctx).commands,
                ..*old(ctx)
            }),
            final(ctx).commands@ == old(ctx).commands@ + Seq::new(
                self.attributes@.len(),
                |j: int| Command::EnableVertexAttribArray { index: self.attributes@[j].0 },
            ),
            enable_all_rel(*old(ctx), *final(ctx), self.attributes@),
    {
        let ghost cmds = |j: int| Command::EnableVertexAttribArray {
            index: self.attributes@[j].0,
        };
        let n = self.attributes.len();
        let mut i: usize = 0;
        proof {
            assert(ctx.commands@ =~= old(ctx).commands@ + Seq::new(0, cmds));
        }
        while i < n
            invariant
                i <= n,
                n == self.attributes@.len(),
                *ctx == (Context {
                    enabled: ctx.enabled,
                    commands: ctx.commands,
                    ..*old(ctx)
                }),
                ctx.commands@ == old(ctx).commands@ + Seq::new(i as nat, cmds),
                cmds == (|j: int| Command::EnableVertexAttribArray {
                    index: self.attributes@[j].0,
                }),
                forall|l: u32|
                    ctx.is_enabled(l) == (old(ctx).is_enabled(l) || table_has_slot(
                        self.attributes@.subrange(0, i as int),
                        l,
                    )),
            decreases n - i,
        {
            let a = self.attributes[i];
            a.enable(ctx);
            proof {
                assert(Seq::new(i as nat + 1, cmds) =~= Seq::new(i as nat, cmds).push(cmds(
                    i as int,
                )));
                assert(ctx.commands@ =~= old(ctx).commands@ + Seq::new(i as nat + 1, cmds));
                lemma_slot_subrange_step(self.attributes@, i as int);
            }
            i = i + 1;
        }
        proof {
            assert(self.attributes@.subrange(0, n as int) =~= self.attributes@);
        }
    }

    /// Disable every slot in the table, in declaration order.
    pub fn disable_all(&self, ctx: &mut Context)
        ensures
            *final(ctx) == (Context {
                enabled: final(ctx).enabled,
                commands: final(ctx).commands,
                ..*old(ctx)
            }),
            final(ctx).commands@ == old(ctx).commands@ + Seq::new(
                self.attributes@.len(),
                |j: int| Command::DisableVertexAttribArray { index: self.attributes@[j].0 },
            ),
            disable_all_rel(*old(ctx), *final(ctx), self.attributes@),
    {
        let ghost cmds = |j: int| Command::DisableVertexAttribArray {
            index: self.attributes@[j].0,
        };
        let n = self.attributes.len();
        let mut i: usize = 0;
        proof {
            assert(ctx.commands@ =~= old(ctx).commands@ + Seq::new(0, cmds));
        }
        while i < n
            invariant
                i <= n,
                n == self.attributes@.len(),
                *ctx == (Context {
                    enabled: ctx.enabled,
                    commands: ctx.commands,
                    ..*old(ctx)
                }),
                ctx.commands@ == old(ctx).commands@ + Seq::new(i as nat, cmds),
                cmds == (|j: int| Command::DisableVertexAttribArray {
                    index: self.attributes@[j].0,
                }),
                forall|l: u32|
                    ctx.is_enabled(l) == (old(ctx).is_enabled(l) && !table_has_slot(
                        self.attributes@.subrange(0, i as int),
                        l,
                    )),
            decreases n - i,
        {
            let a = self.attributes[i];
            a.disable(ctx);
            proof {
                assert(Seq::new(i as nat + 1, cmds) =~= Seq::new(i as nat, cmds).push(cmds(
                    i as int,
                )));
                assert(ctx.commands@ =~= old(ctx).commands@ + Seq::new(i as nat + 1, cmds));
                lemma_slot_subrange_step(self.attributes@, i as int);
            }
            i = i + 1;
        }
        proof {
            assert(self.attributes@.subrange(0, n as int) =~= self.attributes@);
        }
    }
}

/// Extending the slot set of a table prefix by one attribute adds exactly
/// that attribute's location.
proof fn lemma_slot_subrange_step(attrs: Seq<Attribute>, i: int)
    requires
        0 <= i < attrs.len(),
    ensures
        forall|l: u32|
            table_has_slot(attrs.subrange(0, i + 1), l) == (table_has_slot(
                attrs.subrange(0, i),
                l,
            ) || l == attrs[i].0),
{
    let sub1 = attrs.subrange(0, i + 1);
    let sub0 = attrs.subrange(0, i);
    assert forall|l: u32|
        table_has_slot(sub1, l) == (table_has_slot(sub0, l) || l == attrs[i].0) by {
        if table_has_slot(sub1, l) {
            let j = choose|j: int| 0 <= j < sub1.len() && sub1[j].0 == l;
            if j < i {
                assert(sub0[j].0 == l);
            } else {
                assert(sub1[i] == attrs[i]);
            }
        }
        if table_has_slot(sub0, l) {
            let j = choose|j: int| 0 <= j < sub0.len() && sub0[j].0 == l;
            assert(sub1[j].0 == l);
        }
        if l == attrs[i].0 {
            assert(sub1[i].0 == l);
        }
    }
}

/// A failed construction reports every unresolved name, not just the first:
/// each declared name the program does not expose appears in the missing
/// list, and the list is empty exactly when every name resolves.
pub proof fn lemma_missing_complete(p: Program, names: Seq<String>)
    ensures
        forall|i: int|
            0 <= i < names.len() && p.attrib_location_spec((#[trigger] names[i])@) < 0
                ==> AttributeTable::missing_spec(p, names).contains(names[i]),
        (AttributeTable::missing_spec(p, names).len() == 0) <==> (forall|i: int|
            0 <= i < names.len() ==> p.attrib_location_spec((#[trigger] names[i])@) >= 0),
{
    assert forall|i: int|
        0 <= i < names.len() && p.attrib_location_spec((names[i])@) < 0 implies
        AttributeTable::missing_spec(p, names).contains(names[i]) by {
        lemma_missing_contains_rec(p, names, i);
    }
    if forall|i: int| 0 <= i < names.len() ==> p.attrib_location_spec((#[trigger] names[i])@) >= 0 {
        lemma_missing_empty_rec(p, names);
    }
    if AttributeTable::missing_spec(p, names).len() == 0 {
        assert forall|i: int| 0 <= i < names.len() implies p.attrib_location_spec(
            (#[trigger] names[i])@,
        ) >= 0 by {
            if p.attrib_location_spec(names[i]@) < 0 {
                lemma_missing_contains_rec(p, names, i);
            }
        }
    }
}

/// Each unresolved name appears in the missing list.
proof fn lemma_missing_contains_rec(p: Program, names: Seq<String>, i: int)
    requires
        0 <= i < names.len(),
        p.attrib_location_spec(names[i]@) < 0,
    ensures
        AttributeTable::missing_spec(p, names).contains(names[i]),
    decreases names.len(),
{
    reveal(Seq::filter);
    let out = AttributeTable::missing_spec(p, names);
    if i == names.len() - 1 {
        assert(out.last() == names[i]);
        assert(out.contains(names[i]));
    } else {
        let prefix = names.drop_last();
        assert(prefix[i] == names[i]);
        lemma_missing_contains_rec(p, prefix, i);
        let sub = AttributeTable::missing_spec(p, prefix);
        let j = choose|j: int| 0 <= j < sub.len() && sub[j] == names[i];
        if unresolved_attrib(p, names.last()) {
            assert(out == sub.push(names.last()));
            assert(out[j] == names[i]);
        } else {
            assert(out == sub);
        }
        assert(out.contains(names[i]));
    }
}

/// If every name resolves, the missing list is empty.
proof fn lemma_missing_empty_rec(p: Program, names: Seq<String>)
    requires
        forall|i: int|
            0 <= i < names.len() ==> p.attrib_location_spec((#[trigger] names[i])@) >= 0,
    ensures
        AttributeTable::missing_spec(p, names).len() == 0,
    decreases names.len(),
{
    reveal(Seq::filter);
    if names.len() > 0 {
        let prefix = names.drop_last();
        assert forall|i: int| 0 <= i < prefix.len() implies p.attrib_location_spec(
            (#[trigger] prefix[i])@,
        ) >= 0 by {
            assert(prefix[i] == names[i]);
        }
        lemma_missing_empty_rec(p, prefix);
        assert(!unresolved_attrib(p, names.last()));
        assert(AttributeTable::missing_spec(p, names) == AttributeTable::missing_spec(p, prefix));
    }
}

} // verus!
