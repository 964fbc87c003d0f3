use vstd::prelude::*;
use crate::error::{check, check_spec, ErrorKind, Failure, KernelError};

verus! {

/// The kernel's sentinel for "no geometry": a miss in a hit record, a failed attach.
pub const INVALID_GEOMETRY_ID: u32 = 0xffff_ffff;

/// Bit pattern of the float positive infinity, the default far bound of a ray.
pub const FAR_DEFAULT_BITS: u32 = 0x7f80_0000;

/// Default ray mask: every bit set.
pub const MASK_DEFAULT: u32 = 0xffff_ffff;

/// Scene flag bits, as the kernel numbers them.
pub const FLAG_DYNAMIC: u32 = 1;
pub const FLAG_COMPACT: u32 = 2;
pub const FLAG_ROBUST: u32 = 4;
pub const FLAG_FILTER_FUNCTION_IN_ARGUMENTS: u32 = 8;

/// Acceleration-structure build quality.
#[derive(Clone, Copy, Debug, PartialEq, Eq, Structural)]
pub enum BuildQuality {
    Low,
    Medium,
    High,
    Refit,
}

impl BuildQuality {
    /// The kernel's value for this quality.
    pub fn code(self) -> (r: u32)
        ensures
            r == (match self {
                BuildQuality::Low => 0u32,
                BuildQuality::Medium => 1,
                BuildQuality::High => 2,
                BuildQuality::Refit => 3,
            }),
    {
        match self {
            BuildQuality::Low => 0,
            BuildQuality::Medium => 1,
            BuildQuality::High => 2,
            BuildQuality::Refit => 3,
        }
    }
}

/// Build options of a scene.
#[derive(Clone, Copy, Debug, PartialEq, Eq, Structural)]
pub struct SceneOptions {
    pub quality: BuildQuality,
    pub dynamic: bool,
    pub compact: bool,
    pub robust: bool,
    pub filter_function_in_arguments: bool,
}

pub open spec fn bit(on: bool, value: u32) -> u32 {
    if on {
        value
    } else {
        0
    }
}

impl SceneOptions {
    /// The flag word handed to the kernel: one bit per option that is set.
    pub open spec fn flags_spec(self) -> u32 {
        (bit(self.dynamic, FLAG_DYNAMIC) + bit(self.compact, FLAG_COMPACT) + bit(self.robust, FLAG_ROBUST)
            + bit(self.filter_function_in_arguments, FLAG_FILTER_FUNCTION_IN_ARGUMENTS)) as u32
    }

    pub fn flags(&self) -> (r: u32)
        ensures
            r == self.flags_spec(),
            r < 16,
    {
        let mut r: u32 = 0;
        if self.dynamic {
            r = r + FLAG_DYNAMIC;
        }
        if self.compact {
            r = r + FLAG_COMPACT;
        }
        if self.robust {
            r = r + FLAG_ROBUST;
        }
        if self.filter_function_in_arguments {
            r = r + FLAG_FILTER_FUNCTION_IN_ARGUMENTS;
        }
        r
    }
}

impl Default for SceneOptions {
    /// The kernel's own defaults: medium quality, no flags.
    fn default() -> (r: SceneOptions)
        ensures
            r.quality == BuildQuality::Medium,
            !r.dynamic && !r.compact && !r.robust && !r.filter_function_in_arguments,
    {
        SceneOptions {
            quality: BuildQuality::Medium,
            dynamic: false,
            compact: false,
            robust: false,
            filter_function_in_arguments: false,
        }
    }
}

/// A single ray; each float field holds the bit pattern of a 32-bit float.
#[derive(Clone, Copy, Debug, PartialEq, Eq, Structural)]
pub struct Ray {
    pub org_x: u32,
    pub org_y: u32,
    pub org_z: u32,
    pub tnear: u32,
    pub dir_x: u32,
    pub dir_y: u32,
    pub dir_z: u32,
    pub time: u32,
    pub tfar: u32,
    pub mask: u32,
    pub id: u32,
    pub flags: u32,
}

impl Ray {
    /// A ray from an origin along a direction, with the kernel's documented
    /// defaults elsewhere: near bound 0, far bound infinity, time 0, all mask bits.
    pub fn new(org_x: u32, org_y: u32, org_z: u32, dir_x: u32, dir_y: u32, dir_z: u32) -> (r: Ray)
        ensures
            r == (Ray {
                org_x, org_y, org_z, tnear: 0, dir_x, dir_y, dir_z, time: 0,
                tfar: FAR_DEFAULT_BITS, mask: MASK_DEFAULT, id: 0, flags: 0,
            }),
    {
        Ray {
            org_x,
            org_y,
            org_z,
            tnear: 0,
            dir_x,
            dir_y,
            dir_z,
            time: 0,
            tfar: FAR_DEFAULT_BITS,
            mask: MASK_DEFAULT,
            id: 0,
            flags: 0,
        }
    }
}

/// A reported intersection: the hit distance (float bits) and what was hit.
#[derive(Clone, Copy, Debug, PartialEq, Eq, Structural)]
pub struct Hit {
    pub distance: u32,
    pub geom_id: u32,
    pub prim_id: u32,
}

/// What a single-ray query yields from the kernel's error code and hit record.
pub open spec fn query_spec(code: KernelError, geom_id: u32, prim_id: u32, tfar: u32) -> Result<Option<Hit>, Failure> {
    match check_spec(code, ErrorKind::Query) {
        Err(f) => Err(f),
        Ok(_) => if geom_id == INVALID_GEOMETRY_ID {
            Ok(None)
        } else {
            Ok(Some(Hit { distance: tfar, geom_id, prim_id }))
        },
    }
}

/// A scene that is still being assembled: geometry can be attached, nothing queried.
pub struct Scene {
    options: SceneOptions,
    attached: Vec<u32>,
}

/// A scene whose acceleration structure is built: it can be queried, not changed.
pub struct CommittedScene {
    options: SceneOptions,
    attached: Vec<u32>,
}

impl Scene {
    /// The identifiers of the attached geometries, in order of attachment.
    pub closed spec fn attached_spec(&self) -> Seq<u32> {
        self.attached@
    }

    /// The options the scene was created with.
    pub closed spec fn options_spec(&self) -> SceneOptions {
        self.options
    }

    pub fn options(&self) -> (r: SceneOptions)
        ensures
            r == self.options_spec(),
    {
        self.options
    }

    /// Decides the outcome of creating a scene from whether the kernel returned a
    /// handle and the error code it reported.
    pub fn try_new(options: SceneOptions, created: bool, code: KernelError) -> (r: Result<Scene, Failure>)
        ensures
            created && code == KernelError::Success <==> r is Ok,
            r matches Ok(s) ==> s.options_spec() == options && s.attached_spec() == Seq::<u32>::empty(),
            r matches Err(f) ==> f == (Failure { kind: ErrorKind::SceneCreation, code }),
    {
        if created && code == KernelError::Success {
            Ok(Scene { options, attached: Vec::new() })
        } else {
            Err(Failure { kind: ErrorKind::SceneCreation, code })
        }
    }

    /// Records an attachment from the identifier the kernel assigned and its error code.
    pub fn attach_geometry(&mut self, id: u32, code: KernelError) -> (r: Result<u32, Failure>)
        ensures
            final(self).options_spec() == old(self).options_spec(),
            code == KernelError::Success && id != INVALID_GEOMETRY_ID <==> r is Ok,
            r is Ok ==> r == Ok::<u32, Failure>(id) && final(self).attached_spec() == old(self).attached_spec().push(id),
            r matches Err(f) ==> f == (Failure { kind: ErrorKind::Attach, code })
                && final(self).attached_spec() == old(self).attached_spec(),
    {
        if code == KernelError::Success && id != INVALID_GEOMETRY_ID {
            self.attached.push(id);
            Ok(id)
        } else {
            Err(Failure { kind: ErrorKind::Attach, code })
        }
    }

    /// Ends assembly from the commit's error code: the scene becomes queryable, or
    /// the failure is returned.
    pub fn commit(self, code: KernelError) -> (r: Result<CommittedScene, Failure>)
        ensures
            code == KernelError::Success <==> r is Ok,
            r matches Ok(c) ==> c.options_spec() == self.options_spec() && c.attached_spec() == self.attached_spec(),
            r matches Err(f) ==> f == (Failure { kind: ErrorKind::Commit, code }),
    {
        match check(code, ErrorKind::Commit) {
            Ok(_) => Ok(CommittedScene { options: self.options, attached: self.attached }),
            Err(f) => Err(f),
        }
    }
}

impl CommittedScene {
    /// The identifiers of the attached geometries, in order of attachment.
    pub closed spec fn attached_spec(&self) -> Seq<u32> {
        self.attached@
    }

    /// The options the scene was created with.
    pub closed spec fn options_spec(&self) -> SceneOptions {
        self.options
    }

    pub fn options(&self) -> (r: SceneOptions)
        ensures
            r == self.options_spec(),
    {
        self.options
    }

    /// The identifiers of the attached geometries, in order of attachment.
    pub fn attached(&self) -> (r: &Vec<u32>)
        ensures
            r@ == self.attached_spec(),
    {
        &self.attached
    }

    /// Turns the kernel's report on a single-ray query into its result: an error
    /// when the kernel recorded one, a miss when the record holds the "no geometry"
    /// sentinel, and otherwise the hit with its distance and identifiers.
    pub fn intersect_1(&self, code: KernelError, geom_id: u32, prim_id: u32, tfar: u32) -> (r: Result<Option<Hit>, Failure>)
        ensures
            r == query_spec(code, geom_id, prim_id, tfar),
    {
        match check(code, ErrorKind::Query) {
            Err(f) => Err(f),
            Ok(_) => if geom_id == INVALID_GEOMETRY_ID {
                Ok(None)
            } else {
                Ok(Some(Hit { distance: tfar, geom_id, prim_id }))
            },
        }
    }
}

} // verus!
