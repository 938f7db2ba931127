//! Handles into the collector's arena and the interpreter values that the
//! scheduler carries around.
use vstd::prelude::*;

verus! {

/// A node of the display list, referenced by its slot in the collector's arena.
#[derive(Clone, Copy, Debug, PartialEq, Eq, Structural)]
pub struct DisplayObject {
    pub id: u64,
}

/// A length or coordinate in twips, a twentieth of a pixel.
#[derive(Clone, Copy, Debug, PartialEq, Eq, Structural)]
pub struct Twips {
    pub value: i32,
}

/// A window `[start, end)` into the immutable bytes of the loaded movie.
#[derive(Clone, Copy, Debug, PartialEq, Eq, Structural)]
pub struct SwfSlice {
    pub start: usize,
    pub end: usize,
}

impl SwfSlice {
    pub open spec fn wf(&self) -> bool {
        self.start <= self.end
    }

    /// A window of `len` bytes starting at `start`; `None` where the end
    /// would not fit in a `usize`.
    pub fn new(start: usize, len: usize) -> (r: Option<SwfSlice>)
        ensures
            start + len <= usize::MAX <==> r.is_some(),
            r matches Some(s) ==> s.start == start && s.end == start + len && s.wf(),
    {
        match start.checked_add(len) {
            Some(end) => Some(SwfSlice { start, end }),
            None => None,
        }
    }

    /// The number of bytes in the window.
    pub fn len(&self) -> (r: usize)
        requires
            self.wf(),
        ensures
            r == self.end - self.start,
    {
        self.end - self.start
    }
}

/// The category of system listener that a notification is sent to.
#[derive(Clone, Copy, Debug, PartialEq, Eq, Structural)]
pub enum SystemListener {
    Key,
    Mouse,
    Stage,
}

/// An interpreter value. `Object` refers to a collector-managed object by
/// its slot in the arena; the other variants hold no references.
#[derive(Clone, Debug)]
pub enum Value {
    Undefined,
    Null,
    Bool(bool),
    Int(i32),
    Str(String),
    Object(u64),
}

/// The arena slots that a value keeps alive.
pub open spec fn value_refs(v: Value) -> Seq<u64> {
    match v {
        Value::Object(id) => seq![id],
        _ => Seq::empty(),
    }
}

/// The arena slots that a sequence of values keeps alive, in order.
pub open spec fn values_refs(vs: Seq<Value>) -> Seq<u64>
    decreases vs.len(),
{
    if vs.len() == 0 {
        Seq::empty()
    } else {
        values_refs(vs.drop_last()) + value_refs(vs.last())
    }
}

impl Value {
    /// Reports to the collector every arena slot this value refers to.
    pub fn trace(&self, cc: &mut Vec<u64>)
        ensures
            final(cc)@ == old(cc)@ + value_refs(*self),
    {
        match self {
            Value::Object(id) => {
                cc.push(*id);
                assert(final(cc)@ =~= old(cc)@ + value_refs(*self));
            },
            _ => {
                assert(old(cc)@ =~= old(cc)@ + value_refs(*self));
            },
        }
    }
}

/// Reports every arena slot referenced by `args`, in order.
pub fn trace_values(args: &Vec<Value>, cc: &mut Vec<u64>)
    ensures
        final(cc)@ == old(cc)@ + values_refs(args@),
{
    let mut i: usize = 0;
    while i < args.len()
        invariant
            i <= args@.len(),
            cc@ == old(cc)@ + values_refs(args@.subrange(0, i as int)),
        decreases args@.len() - i,
    {
        let ghost before = cc@;
        args[i].trace(cc);
        proof {
            let pre = args@.subrange(0, i as int);
            let next = args@.subrange(0, i + 1);
            assert(next.drop_last() =~= pre);
            assert(next.last() == args@[i as int]);
            assert(cc@ =~= old(cc)@ + values_refs(next));
        }
        i = i + 1;
    }
    assert(args@.subrange(0, args@.len() as int) =~= args@);
}

} // verus!
