//! Uniform upload: typed locations inside a linked program, and the shapes
//! a uniform value can take.
use vstd::prelude::*;

use crate::context::{Command, Context};
use crate::program::Program;

verus! {

/// The shape of a uniform: scalar or fixed-size vector, float or integer,
/// or a square float matrix. Each shape corresponds to one driver upload
/// call and fixes how many scalars one element holds.
#[derive(Clone, Copy, PartialEq, Eq, Structural, Debug)]
pub enum UniformShape {
    Float,
    FloatVec2,
    FloatVec3,
    FloatVec4,
    Int,
    IntVec2,
    IntVec3,
    IntVec4,
    Matrix2,
    Matrix3,
    Matrix4,
}

impl UniformShape {
    /// How many scalars one element of this shape holds.
    pub open spec fn components_spec(self) -> int {
        match self {
            UniformShape::Float => 1,
            UniformShape::FloatVec2 => 2,
            UniformShape::FloatVec3 => 3,
            UniformShape::FloatVec4 => 4,
            UniformShape::Int => 1,
            UniformShape::IntVec2 => 2,
            UniformShape::IntVec3 => 3,
            UniformShape::IntVec4 => 4,
            UniformShape::Matrix2 => 4,
            UniformShape::Matrix3 => 9,
            UniformShape::Matrix4 => 16,
        }
    }

    pub fn components(&self) -> (r: usize)
        ensures
            r as int == self.components_spec(),
    {
        match self {
            UniformShape::Float => 1,
            UniformShape::FloatVec2 => 2,
            UniformShape::FloatVec3 => 3,
            UniformShape::FloatVec4 => 4,
            UniformShape::Int => 1,
            UniformShape::IntVec2 => 2,
            UniformShape::IntVec3 => 3,
            UniformShape::IntVec4 => 4,
            UniformShape::Matrix2 => 4,
            UniformShape::Matrix3 => 9,
            UniformShape::Matrix4 => 16,
        }
    }

    /// Matrix shapes take a transpose flag on upload; the others do not.
    pub open spec fn is_matrix_spec(self) -> bool {
        match self {
            UniformShape::Matrix2 | UniformShape::Matrix3 | UniformShape::Matrix4 => true,
            _ => false,
        }
    }

    pub fn is_matrix(&self) -> (r: bool)
        ensures
            r == self.is_matrix_spec(),
    {
        match self {
            UniformShape::Matrix2 | UniformShape::Matrix3 | UniformShape::Matrix4 => true,
            _ => false,
        }
    }
}

/// A resolved uniform location together with the shape of the value it
/// takes. Valid only when it came out of a successful table resolution;
/// uploads through a location that did not are a caller error the driver
/// reports asynchronously, if at all.
#[derive(Clone, Copy, PartialEq, Eq, Structural, Debug)]
pub struct Uniform {
    pub location: i32,
    pub shape: UniformShape,
}

impl Uniform {
    /// The location an upload starting `offset` elements past the base
    /// writes to.
    pub open spec fn subrange_location_spec(self, offset: usize) -> i32 {
        (self.location + offset) as i32
    }

    /// Upload `count` elements starting `offset` elements past the base
    /// location: one driver call at base + offset. No bounds check against
    /// the uniform array's declared length is made; overflowing it is a
    /// driver-level error surfaced only via the error queue. The scalar
    /// values travel through the driver shim.
    pub fn set_subrange(&self, ctx: &mut Context, offset: usize, count: usize)
        requires
            !self.shape.is_matrix_spec(),
            0 <= self.location,
            self.location + offset <= i32::MAX,
            count <= i32::MAX as usize,
        ensures
            *final(ctx) == old(ctx).with_commands(final(ctx).commands),
            final(ctx).commands@ == old(ctx).commands@.push(
                Command::Uniform {
                    location: self.subrange_location_spec(offset),
                    count: count as i32,
                    shape: self.shape,
                    transpose: false,
                },
            ),
    {
        let loc = self.location + (offset as i32);
        ctx.submit(Command::Uniform {
            location: loc,
            count: count as i32,
            shape: self.shape,
            transpose: false,
        });
    }

    /// Upload `count` elements starting at the base location.
    pub fn set_multi(&self, ctx: &mut Context, count: usize)
        requires
            !self.shape.is_matrix_spec(),
            0 <= self.location,
            count <= i32::MAX as usize,
        ensures
            *final(ctx) == old(ctx).with_commands(final(ctx).commands),
            final(ctx).commands@ == old(ctx).commands@.push(
                Command::Uniform {
                    location: self.location,
                    count: count as i32,
                    shape: self.shape,
                    transpose: false,
                },
            ),
    {
        self.set_subrange(ctx, 0, count);
    }

    /// Upload one element at the base location.
    pub fn set(&self, ctx: &mut Context)
        requires
            !self.shape.is_matrix_spec(),
            0 <= self.location,
        ensures
            *final(ctx) == old(ctx).with_commands(final(ctx).commands),
            final(ctx).commands@ == old(ctx).commands@.push(
                Command::Uniform {
                    location: self.location,
                    count: 1,
                    shape: self.shape,
                    transpose: false,
                },
            ),
    {
        self.set_multi(ctx, 1);
    }

    /// Upload `count` matrices starting `offset` elements past the base
    /// location, transposing each if asked.
    pub fn set_subrange_matrix(&self, ctx: &mut Context, offset: usize, count: usize, transpose:
        bool)
        requires
            self.shape.is_matrix_spec(),
            0 <= self.location,
            self.location + offset <= i32::MAX,
            count <= i32::MAX as usize,
        ensures
            *final(ctx) == old(ctx).with_commands(final(ctx).commands),
            final(ctx).commands@ == old(ctx).commands@.push(
                Command::Uniform {
                    location: self.subrange_location_spec(offset),
                    count: count as i32,
                    shape: self.shape,
                    transpose,
                },
            ),
    {
        let loc = self.location + (offset as i32);
        ctx.submit(Command::Uniform {
            location: loc,
            count: count as i32,
            shape: self.shape,
            transpose,
        });
    }

    /// Upload `count` matrices starting at the base location.
    pub fn set_multi_matrix(&self, ctx: &mut Context, count: usize, transpose: bool)
        requires
            self.shape.is_matrix_spec(),
            0 <= self.location,
            count <= i32::MAX as usize,
        ensures
            *final(ctx) == old(ctx).with_commands(final(ctx).commands),
            final(ctx).commands@ == old(ctx).commands@.push(
                Command::Uniform {
                    location: self.location,
                    count: count as i32,
                    shape: self.shape,
                    transpose,
                },
            ),
    {
        self.set_subrange_matrix(ctx, 0, count, transpose);
    }

    /// Upload one matrix at the base location.
    pub fn set_matrix(&self, ctx: &mut Context, transpose: bool)
        requires
            self.shape.is_matrix_spec(),
            0 <= self.location,
        ensures
            *final(ctx) == old(ctx).with_commands(final(ctx).commands),
            final(ctx).commands@ == old(ctx).commands@.push(
                Command::Uniform {
                    location: self.location,
                    count: 1,
                    shape: self.shape,
                    transpose,
                },
            ),
    {
        self.set_multi_matrix(ctx, 1, transpose);
    }
}

/// The declared names a uniform-table construction could not resolve, in
/// declaration order — always the complete list, never a prefix.
#[derive(Debug)]
pub struct MissingUniforms(pub Vec<String>);

/// A location table for uniforms: each declared name resolved against one
/// linked program, built all-or-nothing, each entry carrying its shape.
#[derive(Debug)]
pub struct UniformTable {
    pub names: Vec<String>,
    pub uniforms: Vec<Uniform>,
}

/// The program does not expose uniform `n` (the driver's "not found"
/// location, -1).
pub open spec fn unresolved_uniform(p: Program, n: String) -> bool {
    p.uniform_location_spec(n@) == -1
}

impl UniformTable {
    /// The names of `names` that `p` does not expose, in declaration order.
    pub open spec fn missing_spec(p: Program, names: Seq<String>) -> Seq<String> {
        names.filter(|n: String| unresolved_uniform(p, n))
    }

    pub open spec fn wf(&self) -> bool {
        self.names@.len() == self.uniforms@.len()
    }

    /// The table maps each of `names`, in order, to the location `p`
    /// reports for it, paired with the declared shape.
    pub open spec fn resolves(&self, p: Program, names: Seq<String>, shapes: Seq<UniformShape>)
        -> bool {
        &&& self.names@ == names
        &&& self.uniforms@.len() == names.len()
        &&& forall|i: int|
            0 <= i < names.len() ==> (#[trigger] self.uniforms@[i]).location as int
                == p.uniform_location_spec(names[i]@)
        &&& forall|i: int|
            0 <= i < names.len() ==> (#[trigger] self.uniforms@[i]).shape == shapes[i]
        &&& forall|i: int| 0 <= i < names.len() ==> (#[trigger] self.uniforms@[i]).location >= 0
    }

    /// The resolved uniform of the `i`-th declared name.
    pub fn uniform(&self, i: usize) -> (r: Uniform)
        requires
            i < self.uniforms@.len(),
        ensures
            r == self.uniforms@[i as int],
    {
        self.uniforms[i]
    }

    /// Resolve every declared name against `p`, pairing each with its
    /// declared shape. All-or-nothing: if any name is unresolved the whole
    /// construction fails and the error carries every unresolved name in
    /// declaration order; otherwise the table maps each name to its
    /// (non-negative) location.
    pub fn with_locations_from(p: &Program, names: Vec<String>, shapes: &Vec<UniformShape>) -> (r:
        Result<UniformTable, MissingUniforms>)
        requires
            p.wf(),
            shapes@.len() == names@.len(),
        ensures
            (r is Err) <==> Self::missing_spec(*p, names@).len() > 0,
            r matches Err(m) ==> m.0@ == Self::missing_spec(*p, names@),
            r matches Ok(t) ==> t.wf() && t.resolves(*p, names@, shapes@),
    {
        let n = names.len();
        let mut locations: Vec<i32> = Vec::new();
        let mut missing: Vec<String> = Vec::new();
        let mut i: usize = 0;
        proof {
            reveal(Seq::filter);
            assert(names@.subrange(0, 0) =~= Seq::<String>::empty());
        }
        while i < n
            invariant
                i <= n,
                n == names@.len(),
                p.wf(),
                locations@.len() == i,
                forall|j: int|
                    0 <= j < i ==> #[trigger] locations@[j] as int == p.uniform_location_spec(
                        names@[j]@,
                    ),
                missing@ == Self::missing_spec(*p, names@.subrange(0, i as int)),
            decreases n - i,
        {
            let loc = p.get_uniform_location(&names[i]);
            locations.push(loc);
            let ghost pre_missing = missing@;
            if loc == -1 {
                missing.push(names[i].clone());
            }
            proof {
                reveal(Seq::filter);
                let sub1 = names@.subrange(0, i as int + 1);
                let sub0 = names@.subrange(0, i as int);
                assert(sub1.drop_last() =~= sub0);
                assert(sub1.last() == names@[i as int]);
                if loc == -1 {
                    assert(Self::missing_spec(*p, sub1) == Self::missing_spec(*p, sub0).push(
                        names@[i as int],
                    ));
                    assert(missing@ == pre_missing.push(names@[i as int]));
                } else {
                    assert(Self::missing_spec(*p, sub1) == Self::missing_spec(*p, sub0));
                }
            }
            i = i + 1;
        }
        proof {
            assert(names@.subrange(0, n as int) =~= names@);
        }
        if missing.len() > 0 {
            return Err(MissingUniforms(missing));
        }
        proof {
            lemma_uniform_missing_complete(*p, names@);
            assert forall|j: int| 0 <= j < n implies #[trigger] locations@[j] >= 0 by {
                p.lemma_location_ranges(names@[j]@);
            }
        }
        let mut uniforms: Vec<Uniform> = Vec::new();
        let mut i: usize = 0;
        while i < n
            invariant
                i <= n,
                n == names@.len(),
                n == locations@.len(),
                n == shapes@.len(),
                uniforms@.len() == i,
                forall|j: int|
                    0 <= j < n ==> #[trigger] locations@[j] as int == p.uniform_location_spec(
                        names@[j]@,
                    ),
                forall|j: int| 0 <= j < n ==> #[trigger] locations@[j] >= 0,
                forall|j: int|
                    0 <= j < i ==> (#[trigger] uniforms@[j]).location as int
                        == p.uniform_location_spec(names@[j]@),
                forall|j: int| 0 <= j < i ==> (#[trigger] uniforms@[j]).shape == shapes@[j],
                forall|j: int| 0 <= j < i ==> (#[trigger] uniforms@[j]).location >= 0,
            decreases n - i,
        {
            uniforms.push(Uniform { location: locations[i], shape: shapes[i] });
            i = i + 1;
        }
        Ok(UniformTable { names, uniforms })
    }
}

/// A failed construction reports every unresolved name, not just the first:
/// each declared name the program does not expose appears in the missing
/// list, and the list is empty exactly when every name resolves.
pub proof fn lemma_uniform_missing_complete(p: Program, names: Seq<String>)
    ensures
        forall|i: int|
            0 <= i < names.len() && p.uniform_location_spec((#[trigger] names[i])@) == -1
                ==> UniformTable::missing_spec(p, names).contains(names[i]),
        (UniformTable::missing_spec(p, names).len() == 0) <==> (forall|i: int|
            0 <= i < names.len() ==> p.uniform_location_spec((#[trigger] names[i])@) != -1),
{
    assert forall|i: int|
        0 <= i < names.len() && p.uniform_location_spec((names[i])@) == -1 implies
        UniformTable::missing_spec(p, names).contains(names[i]) by {
        lemma_uniform_missing_contains_rec(p, names, i);
    }
    if forall|i: int|
        0 <= i < names.len() ==> p.uniform_location_spec((#[trigger] names[i])@) != -1 {
        lemma_uniform_missing_empty_rec(p, names);
    }
    if UniformTable::missing_spec(p, names).len() == 0 {
        assert forall|i: int| 0 <= i < names.len() implies p.uniform_location_spec(
            (#[trigger] names[i])@,
        ) != -1 by {
            if p.uniform_location_spec(names[i]@) == -1 {
                lemma_uniform_missing_contains_rec(p, names, i);
            }
        }
    }
}

/// Each unresolved name appears in the missing list.
proof fn lemma_uniform_missing_contains_rec(p: Program, names: Seq<String>, i: int)
    requires
        0 <= i < names.len(),
        p.uniform_location_spec(names[i]@) == -1,
    ensures
        UniformTable::missing_spec(p, names).contains(names[i]),
    decreases names.len(),
{
    reveal(Seq::filter);
    let out = UniformTable::missing_spec(p, names);
    if i == names.len() - 1 {
        assert(out.last() == names[i]);
        assert(out.contains(names[i]));
    } else {
        let prefix = names.drop_last();
        assert(prefix[i] == names[i]);
        lemma_uniform_missing_contains_rec(p, prefix, i);
        let sub = UniformTable::missing_spec(p, prefix);
        let j = choose|j: int| 0 <= j < sub.len() && sub[j] == names[i];
        if unresolved_uniform(p, names.last()) {
            assert(out == sub.push(names.last()));
            assert(out[j] == names[i]);
        } else {
            assert(out == sub);
        }
        assert(out.contains(names[i]));
    }
}

/// If every name resolves, the missing list is empty.
proof fn lemma_uniform_missing_empty_rec(p: Program, names: Seq<String>)
    requires
        forall|i: int|
            0 <= i < names.len() ==> p.uniform_location_spec((#[trigger] names[i])@) != -1,
    ensures
        UniformTable::missing_spec(p, names).len() == 0,
    decreases names.len(),
{
    reveal(Seq::filter);
    if names.len() > 0 {
        let prefix = names.drop_last();
        assert forall|i: int| 0 <= i < prefix.len() implies p.uniform_location_spec(
            (#[trigger] prefix[i])@,
        ) != -1 by {
            assert(prefix[i] == names[i]);
        }
        lemma_uniform_missing_empty_rec(p, prefix);
        assert(!unresolved_uniform(p, names.last()));
        assert(UniformTable::missing_spec(p, names) == UniformTable::missing_spec(p, prefix));
    }
}

} // verus!
