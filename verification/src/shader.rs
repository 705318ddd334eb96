//! The shader registry: a fixed, ordered set of programs compiled once at
//! initialization and addressed by stable index ever after, so the render
//! hot path never looks anything up by name.

use crate::error::InitError;
use vstd::prelude::*;

verus! {

/// How many programs the registry holds.
pub const SHADER_COUNT: usize = 6;

/// The fixed shader roster, in registry order.
#[derive(Clone, Copy, PartialEq, Eq, Structural, Debug)]
pub enum ShaderKind {
    /// Console cells drawn with their background.
    ConsoleWithBg,
    /// Console cells drawn with transparent background.
    ConsoleNoBg,
    /// The backing-buffer composite pass.
    Backing,
    /// The scanline post effect.
    Scanlines,
    /// The fancy-console pass.
    Fancy,
    /// The sprite-console pass.
    Sprite,
}

impl ShaderKind {
    /// The stable registry index of this shader.
    pub open spec fn index_spec(self) -> int {
        match self {
            ShaderKind::ConsoleWithBg => 0,
            ShaderKind::ConsoleNoBg => 1,
            ShaderKind::Backing => 2,
            ShaderKind::Scanlines => 3,
            ShaderKind::Fancy => 4,
            ShaderKind::Sprite => 5,
        }
    }

    pub fn index(self) -> (i: usize)
        ensures
            i as int == self.index_spec(),
    {
        match self {
            ShaderKind::ConsoleWithBg => 0,
            ShaderKind::ConsoleNoBg => 1,
            ShaderKind::Backing => 2,
            ShaderKind::Scanlines => 3,
            ShaderKind::Fancy => 4,
            ShaderKind::Sprite => 5,
        }
    }
}

/// The ordered list of compiled program handles, one per `ShaderKind`.
#[derive(Debug, PartialEq, Eq)]
pub struct ShaderRegistry {
    pub programs: Vec<u32>,
}

impl ShaderRegistry {
    pub open spec fn wf(self) -> bool {
        self.programs@.len() == SHADER_COUNT
    }

    /// Look a program up by roster entry; allocation-free.
    pub fn get(&self, kind: ShaderKind) -> (p: u32)
        requires
            self.wf(),
        ensures
            p == self.programs@[kind.index_spec()],
    {
        let i: usize = kind.index();
        self.programs[i]
    }
}

/// Assemble the registry from the per-shader compile outcomes, in roster
/// order.  Compilation failure of any single shader is a fatal
/// initialization error: no partial registry is ever produced, and the
/// error names the first shader that failed.
pub fn build_registry(results: &Vec<Result<u32, String>>) -> (r: Result<ShaderRegistry, InitError>)
    requires
        results@.len() == SHADER_COUNT,
    ensures
        (r is Ok) <==> (forall|i: int| 0 <= i < results@.len() ==> (#[trigger] results@[i]) is Ok),
        match r {
            Ok(reg) => reg.wf() && forall|i: int|
                0 <= i < results@.len() ==> reg.programs@[i] == (#[trigger] results@[i])->Ok_0,
            Err(e) => {
                &&& e is ShaderCompile
                &&& 0 <= e->ShaderCompile_0 < results@.len()
                &&& results@[e->ShaderCompile_0 as int] is Err
                &&& forall|j: int|
                    0 <= j < e->ShaderCompile_0 ==> (#[trigger] results@[j]) is Ok
            },
        },
{
    let n: usize = results.len();
    let mut programs: Vec<u32> = Vec::new();
    let mut i: usize = 0;
    while i < n
        invariant
            i <= n,
            n == results@.len(),
            programs@.len() == i,
            forall|j: int|
                0 <= j < i ==> (#[trigger] results@[j]) is Ok && programs@[j] == results@[j]->Ok_0,
        decreases n - i,
    {
        match &results[i] {
            Ok(p) => {
                programs.push(*p);
            },
            Err(_) => {
                return Err(InitError::ShaderCompile(i));
            },
        }
        i = i + 1;
    }
    Ok(ShaderRegistry { programs })
}

} // verus!
