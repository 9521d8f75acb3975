use vstd::prelude::*;
use vstd::string::StringExecFns;

verus! {

/// The fixed location of the secondary bootloader image on any candidate
/// volume, as the text of a relative file path.
pub open spec fn target_path_spec() -> Seq<char> {
    "EFI\\systemd\\systemd-bootx64.efi"@
}

/// The one compile-time target path the whole pipeline looks for.
pub fn target_path() -> (r: &'static str)
    ensures
        r@ == target_path_spec(),
{
    "EFI\\systemd\\systemd-bootx64.efi"
}

/// The long-form text of a sequence of path nodes: the nodes joined by `/`.
pub open spec fn render_spec(segs: Seq<Seq<char>>) -> Seq<char>
    decreases segs.len(),
{
    if segs.len() == 0 {
        Seq::empty()
    } else if segs.len() == 1 {
        segs[0]
    } else {
        render_spec(segs.drop_last()) + "/"@ + segs.last()
    }
}

/// `needle` occurs contiguously somewhere inside `hay`.
pub open spec fn contains_seq(hay: Seq<char>, needle: Seq<char>) -> bool {
    exists|i: int|
        0 <= i && i + needle.len() <= hay.len() && #[trigger] hay.subrange(i, i + needle.len())
            == needle
}

/// A structural description of how to reach a volume — and, once the target
/// path is appended, a file on it — from the firmware's root: a sequence of
/// textual path nodes. Rendering joins the nodes long-form with `/`.
pub struct DevicePathIdentity {
    segments: Vec<String>,
}

impl View for DevicePathIdentity {
    type V = Seq<Seq<char>>;

    closed spec fn view(&self) -> Seq<Seq<char>> {
        Seq::new(self.segments@.len(), |i: int| self.segments@[i]@)
    }
}

impl DevicePathIdentity {
    /// The disk-level identity of one volume, from the text the firmware
    /// renders for its device path.
    pub fn from_rendered_disk(text: String) -> (r: DevicePathIdentity)
        ensures
            r@ =~= seq![text@],
    {
        let mut segments: Vec<String> = Vec::new();
        segments.push(text);
        DevicePathIdentity { segments }
    }

    /// How many path nodes this identity holds.
    pub fn len(&self) -> (r: usize)
        ensures
            r == self@.len(),
    {
        self.segments.len()
    }

    /// Build the disk-plus-file identity by structural concatenation: append
    /// the relative file path `path` as one more node, reading no bytes from
    /// the volume.
    pub fn resolve_path(&self, path: &str) -> (r: DevicePathIdentity)
        ensures
            r@ =~= self@.push(path@),
    {
        let mut segments: Vec<String> = Vec::new();
        let mut i: usize = 0;
        while i < self.segments.len()
            invariant
                0 <= i <= self.segments.len(),
                segments.len() == i,
                forall|j: int| 0 <= j < i ==> segments@[j]@ == self.segments@[j]@,
            decreases self.segments.len() - i,
        {
            segments.push(self.segments[i].clone());
            i += 1;
        }
        segments.push(String::from_str(path));
        DevicePathIdentity { segments }
    }

    /// Render this identity long-form: the nodes joined by `/`.
    pub fn render(&self) -> (r: String)
        ensures
            r@ == render_spec(self@),
    {
        let mut out = String::new();
        let mut i: usize = 0;
        while i < self.segments.len()
            invariant
                0 <= i <= self.segments.len(),
                self@.len() == self.segments@.len(),
                out@ == render_spec(self@.take(i as int)),
            decreases self.segments.len() - i,
        {
            if i > 0 {
                out.append("/");
            }
            out.append(self.segments[i].as_str());
            proof {
                let t = self@.take(i as int + 1);
                assert(t.drop_last() =~= self@.take(i as int));
                assert(t.last() == self@[i as int]);
                if i == 0 {
                    assert(render_spec(t) == self@[0]);
                    assert(out@ =~= render_spec(t));
                } else {
                    assert(render_spec(t) == render_spec(self@.take(i as int)) + "/"@ + self@[
                        i as int
                    ]);
                }
            }
            i += 1;
        }
        proof {
            assert(self@.take(self@.len() as int) =~= self@);
        }
        out
    }
}

/// Law: appending one node to a non-empty node sequence renders as the
/// original rendering, a separator, and the new node.
pub proof fn lemma_render_push(segs: Seq<Seq<char>>, node: Seq<char>)
    requires
        segs.len() >= 1,
    ensures
        render_spec(segs.push(node)) == render_spec(segs) + "/"@ + node,
{
    let s = segs.push(node);
    assert(s.drop_last() =~= segs);
    assert(s.last() == node);
}

/// Law: resolving a relative file path against a disk identity and rendering
/// the result long-form yields text that contains the disk identity's own
/// rendering and the file path, each as a contiguous substring.
pub proof fn lemma_resolved_render_contains(disk: Seq<Seq<char>>, path: Seq<char>)
    requires
        disk.len() >= 1,
    ensures
        contains_seq(render_spec(disk.push(path)), render_spec(disk)),
        contains_seq(render_spec(disk.push(path)), path),
{
    lemma_render_push(disk, path);
    let hay = render_spec(disk.push(path));
    let a = render_spec(disk);
    let sep = "/"@;
    assert(hay == a + sep + path);
    assert(hay.subrange(0, 0 + a.len() as int) =~= a);
    assert(contains_seq(hay, a));
    let start = a.len() as int + sep.len() as int;
    assert(hay.subrange(start, start + path.len() as int) =~= path);
    assert(contains_seq(hay, path));
}

} // verus!
