//! Lowering a toolpath to G-code for a Grbl controller.
use vstd::prelude::*;
use crate::fixed::{fixed4_text, format_fixed4};
use crate::types::{GCode, Point3, Toolpath};

verus! {

/// The lines that open every program: absolute positioning, millimetres,
/// the XY plane, and a retract to the safe height.
pub open spec fn header_lines() -> Seq<Seq<char>> {
    seq!["G90"@, "G21"@, "G17"@, "G0 Z10.0"@]
}

/// The retract to the safe height.
pub open spec fn retract_line() -> Seq<char> {
    "G0 Z10.0"@
}

/// The rapid move to above the first point of a path.
pub open spec fn rapid_line(p: Point3) -> Seq<char> {
    "G0 X"@ + fixed4_text(p.0) + " Y"@ + fixed4_text(p.1)
}

/// The plunge to the depth of the first point of a path, at feed 100.
pub open spec fn plunge_line(p: Point3) -> Seq<char> {
    "G1 Z"@ + fixed4_text(p.2) + " F100"@
}

/// The cutting move to a later point of a path, the depth kept.
pub open spec fn cut_line(p: Point3) -> Seq<char> {
    "G1 X"@ + fixed4_text(p.0) + " Y"@ + fixed4_text(p.1)
}

/// The cutting moves to the points of a path after the first `k`.
pub open spec fn cut_lines(path: Seq<Point3>, k: int) -> Seq<Seq<char>> {
    Seq::new((path.len() - k) as nat, |i: int| cut_line(path[k + i]))
}

/// The lines of one path: none for an empty path; else a rapid move, a
/// plunge, one cutting move for each later point, and a retract.
pub open spec fn path_lines(path: Seq<Point3>) -> Seq<Seq<char>> {
    if path.len() == 0 {
        Seq::empty()
    } else {
        seq![rapid_line(path[0]), plunge_line(path[0])] + cut_lines(path, 1) + seq![
            retract_line(),
        ]
    }
}

/// The lines of the paths, in the order of the paths.
pub open spec fn paths_lines(paths: Seq<Seq<Point3>>) -> Seq<Seq<char>>
    decreases paths.len(),
{
    if paths.len() == 0 {
        Seq::empty()
    } else {
        paths_lines(paths.drop_last()) + path_lines(paths.last())
    }
}

/// The program of a toolpath: the header, then the lines of each path.
pub open spec fn grbl_lines(toolpath: Seq<Seq<Point3>>) -> Seq<Seq<char>> {
    header_lines() + paths_lines(toolpath)
}

/// The texts of a list of lines.
pub open spec fn texts(lines: Seq<String>) -> Seq<Seq<char>> {
    Seq::new(lines.len(), |i: int| lines[i]@)
}

fn push_line(lines: &mut Vec<String>, line: String)
    ensures
        texts(final(lines)@) == texts(old(lines)@).push(line@),
{
    lines.push(line);
    assert(texts(lines@) =~= texts(old(lines)@).push(line@));
}

fn xy_line(prefix: &str, p: &Point3) -> (r: String)
    ensures
        r@ == prefix@ + fixed4_text(p.0) + " Y"@ + fixed4_text(p.1),
{
    let mut line = String::from_str(prefix);
    line.append(format_fixed4(p.0).as_str());
    line.append(" Y");
    line.append(format_fixed4(p.1).as_str());
    line
}

fn z_line(p: &Point3) -> (r: String)
    ensures
        r@ == plunge_line(*p),
{
    let mut line = String::from_str("G1 Z");
    line.append(format_fixed4(p.2).as_str());
    line.append(" F100");
    line
}

/// Appends the lines of one path.
fn emit_path(lines: &mut Vec<String>, path: &Vec<Point3>)
    ensures
        texts(final(lines)@) == texts(old(lines)@) + path_lines(path@),
{
    let n: usize = path.len();
    if n == 0 {
        assert(texts(lines@) + path_lines(path@) =~= texts(lines@));
        return ;
    }
    let ghost start = texts(lines@);
    push_line(lines, xy_line("G0 X", &path[0]));
    push_line(lines, z_line(&path[0]));
    let mut i: usize = 1;
    while i < n
        invariant
            1 <= i <= n,
            n == path@.len(),
            texts(lines@) == start + seq![rapid_line(path@[0]), plunge_line(path@[0])]
                + cut_lines(path@.take(i as int), 1),
        decreases n - i,
    {
        push_line(lines, xy_line("G1 X", &path[i]));
        proof {
            assert(cut_lines(path@.take(i + 1), 1) =~= cut_lines(path@.take(i as int), 1).push(
                cut_line(path@[i as int]),
            ));
        }
        i = i + 1;
    }
    push_line(lines, String::from_str("G0 Z10.0"));
    proof {
        assert(path@.take(n as int) =~= path@);
        assert(texts(lines@) =~= start + path_lines(path@));
    }
}

/// The G-code of a toolpath for a Grbl controller: the header once, then
/// for each path that is not empty a rapid move to its first point, a plunge
/// to that point's depth, a cutting move to each later point, and a retract.
/// Coordinates are written with four decimals.
pub fn post_process_grbl(toolpath: &Toolpath) -> (gcode: GCode)
    ensures
        gcode@ == grbl_lines(toolpath@),
{
    let mut lines: Vec<String> = Vec::new();
    assert(texts(lines@) =~= Seq::<Seq<char>>::empty());
    push_line(&mut lines, String::from_str("G90"));
    push_line(&mut lines, String::from_str("G21"));
    push_line(&mut lines, String::from_str("G17"));
    push_line(&mut lines, String::from_str("G0 Z10.0"));
    assert(texts(lines@) =~= header_lines());
    let n: usize = toolpath.paths.len();
    let mut i: usize = 0;
    assert(toolpath@.take(0) =~= Seq::<Seq<Point3>>::empty());
    while i < n
        invariant
            0 <= i <= n,
            n == toolpath.paths@.len(),
            texts(lines@) == header_lines() + paths_lines(toolpath@.take(i as int)),
        decreases n - i,
    {
        emit_path(&mut lines, &toolpath.paths[i]);
        proof {
            let done = toolpath@.take(i + 1);
            assert(done.drop_last() =~= toolpath@.take(i as int));
            assert(done.last() == toolpath.paths@[i as int]@);
        }
        i = i + 1;
    }
    assert(toolpath@.take(n as int) =~= toolpath@);
    let gcode = GCode { lines };
    assert(gcode@ =~= texts(gcode.lines@));
    gcode
}

/// A path that is not empty gives a rapid move, a plunge, a cutting move
/// for each point after the first, and a retract; an empty path gives nothing.
pub proof fn lemma_path_line_count(path: Seq<Point3>)
    ensures
        path_lines(path).len() == if path.len() == 0 {
            0
        } else {
            path.len() + 2
        },
{
}

/// Every program begins with the header.
pub proof fn lemma_header_first(toolpath: Seq<Seq<Point3>>)
    ensures
        grbl_lines(toolpath).len() >= 4,
        grbl_lines(toolpath).take(4) == header_lines(),
{
    assert(header_lines().len() == 4);
    assert(grbl_lines(toolpath).take(4) =~= header_lines());
}

/// The lines of two runs of paths one after the other are the lines of the
/// first run followed by the lines of the second.
pub proof fn lemma_paths_lines_concat(first: Seq<Seq<Point3>>, second: Seq<Seq<Point3>>)
    ensures
        paths_lines(first + second) == paths_lines(first) + paths_lines(second),
    decreases second.len(),
{
    if second.len() == 0 {
        assert(first + second =~= first);
        assert(paths_lines(first) + paths_lines(second) =~= paths_lines(first));
    } else {
        let all = first + second;
        assert(all.drop_last() =~= first + second.drop_last());
        assert(all.last() == second.last());
        lemma_paths_lines_concat(first, second.drop_last());
        assert(paths_lines(all) =~= paths_lines(first) + paths_lines(second));
    }
}

/// An empty path leaves no trace in the program: the program of a toolpath
/// is that of the toolpath without the empty path at position `i`.
pub proof fn lemma_empty_path_skipped(toolpath: Seq<Seq<Point3>>, i: int)
    requires
        0 <= i < toolpath.len(),
        toolpath[i].len() == 0,
    ensures
        grbl_lines(toolpath) == grbl_lines(toolpath.remove(i)),
{
    let before = toolpath.take(i);
    let after = toolpath.skip(i + 1);
    let empty = seq![toolpath[i]];
    assert(toolpath =~= before + empty + after);
    assert(toolpath.remove(i) =~= before + after);
    assert(empty.drop_last() =~= Seq::<Seq<Point3>>::empty());
    assert(empty.last() == toolpath[i]);
    assert(paths_lines(empty.drop_last()) =~= Seq::<Seq<char>>::empty());
    assert(path_lines(empty.last()) =~= Seq::<Seq<char>>::empty());
    assert(paths_lines(empty) =~= Seq::<Seq<char>>::empty());
    lemma_paths_lines_concat(before, empty);
    lemma_paths_lines_concat(before + empty, after);
    lemma_paths_lines_concat(before, after);
    assert(paths_lines(before) + paths_lines(empty) =~= paths_lines(before));
}

} // verus!
