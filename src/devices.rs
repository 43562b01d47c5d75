use vstd::prelude::*;

verus! {

/// The directory that holds the device nodes.
pub open spec fn device_dir() -> Seq<char> {
    seq!['/', 'd', 'e', 'v', '/']
}

/// The name prefix of a video capture node.
pub open spec fn device_prefix() -> Seq<char> {
    seq!['v', 'i', 'd', 'e', 'o']
}

pub open spec fn is_camera_node(name: Seq<char>) -> bool {
    name.len() >= device_prefix().len() && name.subrange(0, device_prefix().len() as int)
        == device_prefix()
}

/// The full paths of the camera nodes among directory entry names, in the
/// order the entries were listed.
pub open spec fn camera_paths(names: Seq<Seq<char>>) -> Seq<Seq<char>>
    decreases names.len(),
{
    if names.len() == 0 {
        Seq::empty()
    } else {
        let rest = camera_paths(names.drop_last());
        if is_camera_node(names.last()) {
            rest.push(device_dir() + names.last())
        } else {
            rest
        }
    }
}

pub open spec fn texts(v: Seq<String>) -> Seq<Seq<char>> {
    v.map_values(|s: String| s@)
}

fn is_camera_name(name: &str) -> (r: bool)
    ensures
        r == is_camera_node(name@),
{
    let len = name.unicode_len();
    if len < 5 {
        return false;
    }
    let r = name.get_char(0) == 'v' && name.get_char(1) == 'i' && name.get_char(2) == 'd'
        && name.get_char(3) == 'e' && name.get_char(4) == 'o';
    if r {
        assert(name@.subrange(0, 5) =~= device_prefix());
    } else {
        assert(name@.subrange(0, 5)[0] == name@[0]);
        assert(name@.subrange(0, 5)[4] == name@[4]);
    }
    r
}

/// Picks the camera nodes out of the entry names of the device directory
/// (an unreadable directory gives no names) and returns their full paths, in
/// listing order.
pub fn discover_cameras(entries: &Vec<String>) -> (r: Vec<String>)
    ensures
        texts(r@) == camera_paths(texts(entries@)),
{
    let mut result: Vec<String> = Vec::new();
    let mut i: usize = 0;
    while i < entries.len()
        invariant
            i <= entries.len(),
            texts(result@) == camera_paths(texts(entries@.subrange(0, i as int))),
        decreases entries.len() - i,
    {
        let ghost before = result@;
        let name = entries[i].as_str();
        assert(texts(entries@.subrange(0, i as int + 1)).drop_last() =~= texts(
            entries@.subrange(0, i as int),
        ));
        assert(texts(entries@.subrange(0, i as int + 1)).last() == name@);
        if is_camera_name(name) {
            let mut path = "/dev/".to_owned();
            proof {
                reveal_strlit("/dev/");
            }
            assert(path@ =~= device_dir());
            path.append(name);
            result.push(path);
            assert(texts(result@) =~= texts(before).push(device_dir() + name@));
        }
        i += 1;
    }
    assert(entries@.subrange(0, entries.len() as int) =~= entries@);
    result
}

} // verus!
