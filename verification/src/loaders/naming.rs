//! The naming rule: which artifact a source file is compiled to.
//!
//! An artifact keeps its source's base name and takes the loader's output
//! extension, whatever extension the source had. Names are file names, not
//! paths: both directories are flat.

use vstd::prelude::*;

verus! {

/// `i` is where the extension of `name` begins: the position of its last dot.
///
/// A dot at the very front does not begin an extension (`.profile` is a base
/// name, not an extension), and the name `..` has none.
pub open spec fn is_extension_dot(name: Seq<char>, i: int) -> bool {
    &&& 0 < i < name.len()
    &&& name[i] == '.'
    &&& forall|j: int| i < j < name.len() ==> name[j] != '.'
    &&& !(name.len() == 2 && name[0] == '.')
}

/// Whether `name` has an extension to replace.
pub open spec fn has_extension(name: Seq<char>) -> bool {
    exists|i: int| is_extension_dot(name, i)
}

/// The base name of `name`: what stands before its extension dot, or all of it
/// where it has no extension.
pub open spec fn base_name(name: Seq<char>) -> Seq<char> {
    if has_extension(name) {
        name.subrange(0, choose|i: int| is_extension_dot(name, i))
    } else {
        name
    }
}

/// The name of the artifact compiled from the source file `source` by a loader
/// whose output extension is `extension`: the base name, a dot and the
/// extension. With an empty extension the artifact is the bare base name.
pub open spec fn spec_artifact_name(source: Seq<char>, extension: Seq<char>) -> Seq<char> {
    if extension.len() == 0 {
        base_name(source)
    } else {
        base_name(source) + seq!['.'] + extension
    }
}

/// A name has at most one extension dot, so `base_name` cuts at it.
pub proof fn lemma_base_name_cut(name: Seq<char>, i: int)
    requires
        is_extension_dot(name, i),
    ensures
        has_extension(name),
        base_name(name) == name.subrange(0, i),
{
    let k = choose|k: int| is_extension_dot(name, k);
    assert(k == i) by {
        if k < i {
            assert(name[i] != '.');
        } else if i < k {
            assert(name[k] != '.');
        }
    }
}

/// Two source files are compiled to the same artifact exactly when they have
/// the same base name: the extension that a source had leaves no trace in the
/// name of its artifact.
pub proof fn lemma_same_artifact_same_base(first: Seq<char>, second: Seq<char>, extension: Seq<char>)
    ensures
        spec_artifact_name(first, extension) == spec_artifact_name(second, extension)
            <==> base_name(first) == base_name(second),
{
    let tail = seq!['.'] + extension;
    let one = base_name(first);
    let two = base_name(second);
    if extension.len() > 0 && one + tail == two + tail {
        assert((one + seq!['.']) + extension =~= one + tail);
        assert((two + seq!['.']) + extension =~= two + tail);
        assert(one.len() == two.len()) by {
            assert((one + tail).len() == one.len() + tail.len());
            assert((two + tail).len() == two.len() + tail.len());
        }
        assert forall|i: int| 0 <= i < one.len() implies one[i] == two[i] by {
            assert((one + tail)[i] == one[i]);
            assert((two + tail)[i] == two[i]);
        }
        assert(one =~= two);
    }
    if extension.len() > 0 {
        assert((one + seq!['.']) + extension =~= one + tail);
        assert((two + seq!['.']) + extension =~= two + tail);
    }
}

/// The name of the artifact that the source file `source` is compiled to,
/// under the output extension `extension`.
pub fn artifact_name(source: &str, extension: &str) -> (artifact: String)
    ensures
        artifact@ == spec_artifact_name(source@, extension@),
{
    let len = source.unicode_len();
    let mut end: usize = len;
    while end > 0 && source.get_char(end - 1) != '.'
        invariant
            end <= len,
            len == source@.len(),
            forall|j: int| end <= j < len ==> source@[j] != '.',
        decreases end,
    {
        end = end - 1;
    }
    let cut = end > 1 && !(len == 2 && source.get_char(0) == '.');
    let stem = if cut {
        source.substring_char(0, end - 1)
    } else {
        source
    };
    proof {
        if cut {
            lemma_base_name_cut(source@, end - 1);
        } else {
            assert forall|i: int| !is_extension_dot(source@, i) by {
                if is_extension_dot(source@, i) && end > 0 {
                    assert(source@[end - 1] == '.');
                }
            }
        }
    }
    let mut artifact = String::from_str(stem);
    if extension.unicode_len() > 0 {
        proof {
            reveal_strlit(".");
        }
        artifact.append(".");
        artifact.append(extension);
        assert("."@ =~= seq!['.']);
    }
    artifact
}

} // verus!
