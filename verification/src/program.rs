//! A linked program, as this layer sees it: the driver-assigned handle plus
//! the reflection the driver reports for it — which vertex-input and uniform
//! names the program exposes, and at which locations.
//!
//! The shim that owns the real driver queries that reflection once at link
//! time and builds a `Program` from plain values; location-table
//! construction then resolves names against it without further driver calls.
use vstd::prelude::*;

use crate::context::{Command, Context};

verus! {

/// A linked program: its handle and its name → location reflection.
/// A lookup that misses reports the driver's "not found" location, -1.
pub struct Program {
    pub handle: u32,
    pub attribs: Vec<(String, u32)>,
    pub uniforms: Vec<(String, u32)>,
}

impl Program {
    /// Every reported location fits a non-negative `i32`, as the driver
    /// guarantees for resolved names.
    pub open spec fn entries_wf(entries: Seq<(String, u32)>) -> bool {
        forall|i: int| 0 <= i < entries.len() ==> (#[trigger] entries[i]).1 <= i32::MAX as u32
    }

    pub open spec fn wf(&self) -> bool {
        Self::entries_wf(self.attribs@) && Self::entries_wf(self.uniforms@)
    }

    /// The location the reflection reports for `name`: the first entry of
    /// that name, or -1 when the program does not expose it.
    pub open spec fn lookup(entries: Seq<(String, u32)>, name: Seq<char>) -> int
        decreases entries.len(),
    {
        if entries.len() == 0 {
            -1
        } else if entries[0].0@ == name {
            entries[0].1 as int
        } else {
            Self::lookup(entries.drop_first(), name)
        }
    }

    pub open spec fn attrib_location_spec(&self, name: Seq<char>) -> int {
        Self::lookup(self.attribs@, name)
    }

    pub open spec fn uniform_location_spec(&self, name: Seq<char>) -> int {
        Self::lookup(self.uniforms@, name)
    }

    proof fn lemma_lookup_bounds(entries: Seq<(String, u32)>, name: Seq<char>)
        requires
            Self::entries_wf(entries),
        ensures
            -1 <= Self::lookup(entries, name) <= i32::MAX as int,
        decreases entries.len(),
    {
        if entries.len() > 0 && entries[0].0@ != name {
            assert(Self::entries_wf(entries.drop_first()));
            Self::lemma_lookup_bounds(entries.drop_first(), name);
        }
    }

    fn lookup_exec(entries: &Vec<(String, u32)>, name: &String) -> (r: i32)
        requires
            Self::entries_wf(entries@),
        ensures
            r as int == Self::lookup(entries@, name@),
    {
        let n = entries.len();
        let mut i: usize = 0;
        proof {
            assert(entries@.skip(0) =~= entries@);
        }
        while i < n
            invariant
                i <= n,
                n == entries@.len(),
                Self::entries_wf(entries@),
                Self::lookup(entries@.skip(i as int), name@) == Self::lookup(entries@, name@),
            decreases n - i,
        {
            if entries[i].0 == *name {
                proof {
                    assert(entries@.skip(i as int)[0] == entries@[i as int]);
                }
                return entries[i].1 as i32;
            }
            proof {
                assert(entries@.skip(i as int).drop_first() =~= entries@.skip(i as int + 1));
            }
            i = i + 1;
        }
        proof {
            assert(entries@.skip(n as int) =~= Seq::<(String, u32)>::empty());
        }
        -1
    }

    /// Build a program model from the driver's reflection: the handle the
    /// link produced and the name → location pairs reported for it.
    pub fn new(handle: u32, attribs: Vec<(String, u32)>, uniforms: Vec<(String, u32)>) -> (p:
        Program)
        requires
            Self::entries_wf(attribs@),
            Self::entries_wf(uniforms@),
        ensures
            p.wf(),
            p.handle == handle,
            p.attribs@ == attribs@,
            p.uniforms@ == uniforms@,
    {
        Program { handle, attribs, uniforms }
    }

    /// The location of vertex input `name`, or a negative value when the
    /// program does not expose it.
    pub fn get_attrib_location(&self, name: &String) -> (r: i32)
        requires
            self.wf(),
        ensures
            r as int == self.attrib_location_spec(name@),
    {
        Self::lookup_exec(&self.attribs, name)
    }

    /// The location of uniform `name`, or -1 when the program does not
    /// expose it.
    pub fn get_uniform_location(&self, name: &String) -> (r: i32)
        requires
            self.wf(),
        ensures
            r as int == self.uniform_location_spec(name@),
    {
        Self::lookup_exec(&self.uniforms, name)
    }

    /// Make this program current for subsequent draws.
    pub fn use_me(&self, ctx: &mut Context)
        ensures
            *final(ctx) == (Context {
                current_program: self.handle,
                commands: final(ctx).commands,
                ..*old(ctx)
            }),
            final(ctx).commands@ == old(ctx).commands@.push(
                Command::UseProgram { program: self.handle },
            ),
    {
        ctx.current_program = self.handle;
        ctx.submit(Command::UseProgram { program: self.handle });
    }

    /// Lookups never report a location outside `-1 ..= i32::MAX`; resolved
    /// names therefore always carry representable locations.
    pub proof fn lemma_location_ranges(&self, name: Seq<char>)
        requires
            self.wf(),
        ensures
            -1 <= self.attrib_location_spec(name) <= i32::MAX as int,
            -1 <= self.uniform_location_spec(name) <= i32::MAX as int,
    {
        Self::lemma_lookup_bounds(self.attribs@, name);
        Self::lemma_lookup_bounds(self.uniforms@, name);
    }
}

} // verus!
