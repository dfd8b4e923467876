//! Mapping a plane that is shared by file descriptor.

use vstd::prelude::*;

verus! {

/// What to map: so many bytes from the start of the file, of which the plane
/// begins at `data_off`.
#[derive(Debug, Clone, Copy, PartialEq, Eq, Structural)]
pub struct MapPlan {
    pub len: usize,
    pub data_off: usize,
}

/// Why a plane cannot be mapped.
#[derive(Debug, Clone, Copy, PartialEq, Eq, Structural)]
pub enum MapRefusal {
    NoFd,
    Overflow,
    Empty,
}

/// The class of an input/output error.
#[derive(Debug, Clone, Copy, PartialEq, Eq, Structural)]
pub enum RefusalKind {
    InvalidData,
    InvalidInput,
}

impl MapRefusal {
    pub open spec fn kind_spec(self) -> RefusalKind {
        match self {
            MapRefusal::NoFd => RefusalKind::InvalidData,
            _ => RefusalKind::InvalidInput,
        }
    }

    pub fn kind(&self) -> (r: RefusalKind)
        ensures
            r == self.kind_spec(),
    {
        match self {
            MapRefusal::NoFd => RefusalKind::InvalidData,
            _ => RefusalKind::InvalidInput,
        }
    }

    pub fn message(&self) -> (r: &'static str)
        ensures
            r@ == match *self {
                MapRefusal::NoFd => "spa_data has no fd (fd<0)"@,
                MapRefusal::Overflow => "maxsize+mapoffset overflow"@,
                MapRefusal::Empty => "map_len == 0"@,
            },
    {
        match self {
            MapRefusal::NoFd => "spa_data has no fd (fd<0)",
            MapRefusal::Overflow => "maxsize+mapoffset overflow",
            MapRefusal::Empty => "map_len == 0",
        }
    }
}

impl MapPlan {
    /// The plane begins inside the mapping or at its end.
    pub open spec fn wf(self) -> bool {
        self.data_off <= self.len
    }
}

/// A plane as PipeWire describes it.
pub trait SpaDataLike {
    spec fn fd_spec(&self) -> i32;

    spec fn maxsize_spec(&self) -> u32;

    spec fn mapoffset_spec(&self) -> u32;

    /// The file descriptor; a negative one is none.
    fn fd(&self) -> (r: i32)
        ensures
            r == self.fd_spec(),
    ;

    /// The largest number of bytes in the plane.
    fn maxsize(&self) -> (r: u32)
        ensures
            r == self.maxsize_spec(),
    ;

    /// Where the plane begins in the file.
    fn mapoffset(&self) -> (r: u32)
        ensures
            r == self.mapoffset_spec(),
    ;
}

/// A plane's description in plain numbers.
#[derive(Debug, Clone, Copy, PartialEq, Eq, Structural)]
pub struct SpaData {
    pub fd: i32,
    pub maxsize: u32,
    pub mapoffset: u32,
}

impl SpaDataLike for SpaData {
    open spec fn fd_spec(&self) -> i32 {
        self.fd
    }

    open spec fn maxsize_spec(&self) -> u32 {
        self.maxsize
    }

    open spec fn mapoffset_spec(&self) -> u32 {
        self.mapoffset
    }

    fn fd(&self) -> i32 {
        self.fd
    }

    fn maxsize(&self) -> u32 {
        self.maxsize
    }

    fn mapoffset(&self) -> u32 {
        self.mapoffset
    }
}

/// What to map for a plane with the given descriptor, size and offset.
pub open spec fn map_plan(fd: i32, maxsize: u32, mapoffset: u32) -> Result<MapPlan, MapRefusal> {
    if fd < 0 {
        Err(MapRefusal::NoFd)
    } else if maxsize + mapoffset > usize::MAX {
        Err(MapRefusal::Overflow)
    } else if maxsize + mapoffset == 0 {
        Err(MapRefusal::Empty)
    } else {
        Ok(MapPlan { len: (maxsize + mapoffset) as usize, data_off: mapoffset as usize })
    }
}

/// Decides what to map for a plane.
pub fn map_dmabuf_plane<D: SpaDataLike>(d: &D) -> (r: Result<MapPlan, MapRefusal>)
    ensures
        r == map_plan(d.fd_spec(), d.maxsize_spec(), d.mapoffset_spec()),
        r matches Ok(plan) ==> plan.wf() && plan.len - plan.data_off == d.maxsize_spec(),
{
    if d.fd() < 0 {
        return Err(MapRefusal::NoFd);
    }
    let mapoffset: u32 = d.mapoffset();
    let map_len: usize = match (d.maxsize() as usize).checked_add(mapoffset as usize) {
        Some(len) => len,
        None => {
            return Err(MapRefusal::Overflow);
        },
    };
    if map_len == 0 {
        return Err(MapRefusal::Empty);
    }
    Ok(MapPlan { len: map_len, data_off: mapoffset as usize })
}

/// The bytes of the plane inside its mapping.
pub fn plane_bytes<'a>(mapping: &'a [u8], plan: &MapPlan) -> (r: &'a [u8])
    requires
        plan.wf(),
        mapping@.len() == plan.len,
    ensures
        r@ == mapping@.subrange(plan.data_off as int, plan.len as int),
{
    vstd::slice::slice_subrange(mapping, plan.data_off, mapping.len())
}

/// A plane is mapped exactly if it has a descriptor and any bytes up to its end, and the
/// mapping reaches from the start of the file to the end of the plane.
pub proof fn law_the_mapping_ends_with_the_plane(fd: i32, maxsize: u32, mapoffset: u32)
    ensures
        map_plan(fd, maxsize, mapoffset) is Ok <==> fd >= 0 && 0 < maxsize + mapoffset <= usize::MAX,
        map_plan(fd, maxsize, mapoffset) matches Ok(plan) ==> {
            &&& plan.data_off == mapoffset
            &&& plan.len == mapoffset + maxsize
        },
        fd < 0 <==> map_plan(fd, maxsize, mapoffset) == Err::<MapPlan, MapRefusal>(
            MapRefusal::NoFd,
        ),
{
}

/// The bytes of a plane are those of its mapping from where the plane begins.
pub proof fn law_planes_begin_at_their_offset(
    maxsize: u32,
    mapoffset: u32,
    fd: i32,
    mapping: &[u8],
    plan: MapPlan,
    r: &[u8],
    i: int,
)
    requires
        map_plan(fd, maxsize, mapoffset) == Ok::<MapPlan, MapRefusal>(plan),
        mapping@.len() == plan.len,
        call_ensures(plane_bytes, (mapping, &plan), r),
        0 <= i < r@.len(),
    ensures
        r@.len() == maxsize,
        r@[i] == mapping@[mapoffset + i],
{
}

} // verus!
