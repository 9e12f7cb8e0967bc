use crate::symbols::error::MapFileError;
use crate::symbols::module_name::{module_name_spec, ModuleName};
use crate::symbols::module_segment::{segment_spec, ModuleSegment, SegmentView};
use crate::text::{chars_of, string_of, trim, trim_range, str_eq, MapFileLines};
use vstd::prelude::*;

verus! {

/// A module of a linker map file and the segments it contributes.
#[derive(Debug)]
pub struct Module {
    pub name: ModuleName,
    pub segments: Vec<ModuleSegment>,
}

/// The content of a `Module`.
pub struct ModuleView {
    pub name: (Seq<char>, Option<Seq<char>>),
    pub segments: Seq<SegmentView>,
}

impl View for Module {
    type V = ModuleView;

    open spec fn view(&self) -> ModuleView {
        ModuleView {
            name: self.name.spec_fields(),
            segments: self.segments@.map_values(|s: ModuleSegment| s@),
        }
    }
}

/// The segments at the start of `lines`: every leading line that reads as a
/// segment, in order.
pub open spec fn segments_spec(lines: Seq<Seq<char>>) -> Seq<SegmentView>
    decreases lines.len(),
{
    if lines.len() > 0 && segment_spec(lines[0]) is Ok {
        seq![segment_spec(lines[0])->Ok_0] + segments_spec(lines.drop_first())
    } else {
        Seq::empty()
    }
}

/// One module at the start of `lines`: a heading `name:` (after trimming)
/// followed by its segment lines; also the number of lines it takes.
pub open spec fn module_spec(lines: Seq<Seq<char>>) -> Result<(ModuleView, nat), MapFileError> {
    if lines.len() == 0 {
        Err(MapFileError::InvalidModule)
    } else {
        let t = trim(lines[0]);
        if t.len() == 0 || t.last() != ':' {
            Err(MapFileError::InvalidModule)
        } else {
            let segs = segments_spec(lines.drop_first());
            Ok(
                (
                    ModuleView { name: module_name_spec(t.drop_last()), segments: segs },
                    segs.len() + 1,
                ),
            )
        }
    }
}

/// The modules at the start of `lines`, up to the `Segment list:` heading or
/// to the first line that starts no module; also the number of lines taken.
pub open spec fn modules_spec(lines: Seq<Seq<char>>) -> (Seq<ModuleView>, nat)
    decreases lines.len(),
{
    if lines.len() > 0 && lines[0] == "Segment list:"@ {
        (Seq::empty(), 0)
    } else {
        match module_spec(lines) {
            Err(_) => (Seq::empty(), 0),
            Ok((m, k)) => {
                if 0 < k <= lines.len() {
                    let rest = modules_spec(lines.skip(k as int));
                    (seq![m] + rest.0, rest.1 + k)
                } else {
                    (Seq::empty(), 0)
                }
            },
        }
    }
}

/// What `Module::fetch_all` gives: the modules after the `Modules list:`
/// heading, or `InvalidModuleList` when the heading is missing.
pub open spec fn module_list_spec(lines: Seq<Seq<char>>) -> Result<(Seq<ModuleView>, nat), MapFileError> {
    if lines.len() > 0 && lines[0] == "Modules list:"@ {
        let r = modules_spec(lines.drop_first());
        Ok((r.0, r.1 + 1))
    } else {
        Err(MapFileError::InvalidModuleList)
    }
}

/// The segments a module has read so far never outnumber the lines consumed.
proof fn lemma_segments_len(lines: Seq<Seq<char>>)
    ensures
        segments_spec(lines).len() <= lines.len(),
    decreases lines.len(),
{
    if lines.len() > 0 && segment_spec(lines[0]) is Ok {
        lemma_segments_len(lines.drop_first());
    }
}

impl Module {
    /// Reads one module from the front of `lines`.
    pub fn fetch(lines: &mut MapFileLines) -> (r: Result<Module, MapFileError>)
        ensures
            r matches Ok(m) ==> module_spec(old(lines).remaining()) matches Ok((mv, k)) && m@
                == mv && final(lines).remaining() == old(lines).remaining().skip(k as int),
            r matches Err(e) ==> module_spec(old(lines).remaining()) == Err::<
                (ModuleView, nat),
                MapFileError,
            >(e) && final(lines).remaining() == old(lines).remaining(),
    {
        let ghost lines0 = lines.remaining();
        let first = match lines.peek() {
            None => return Err(MapFileError::InvalidModule),
            Some(s) => chars_of(s),
        };
        let (a, b) = trim_range(&first, 0, first.len(), true, ' ');
        assert(first@.subrange(0, first@.len() as int) =~= first@);
        if a == b || first[b - 1] != ':' {
            return Err(MapFileError::InvalidModule);
        }
        let header = string_of(&first, a, b - 1);
        assert(first@.subrange(a as int, b - 1) =~= trim(lines0[0]).drop_last());
        let name = ModuleName::from_str(header.as_str());
        let _ = lines.next();
        let mut segments: Vec<ModuleSegment> = Vec::new();
        let ghost mut k: nat = 0;
        proof {
            lemma_segments_len(lines0.drop_first());
        }
        loop
            invariant
                lines.remaining() == lines0.skip(1 + k as int),
                1 + k <= lines0.len(),
                segments@.map_values(|s: ModuleSegment| s@) + segments_spec(lines.remaining())
                    == segments_spec(lines0.drop_first()),
                segments@.len() == k,
            ensures
                lines.remaining() == lines0.skip(1 + k as int),
                segments@.map_values(|s: ModuleSegment| s@) == segments_spec(lines0.drop_first()),
            decreases lines.remaining().len(),
        {
            let ghost before = lines.remaining();
            assert(lines0.drop_first().skip(k as int) =~= before);
            let seg = match lines.peek() {
                None => {
                    assert(segments@.map_values(|s: ModuleSegment| s@) =~= segments_spec(
                        lines0.drop_first(),
                    ));
                    break;
                },
                Some(s) => match ModuleSegment::from_str(s) {
                    Ok(seg) => seg,
                    Err(_) => {
                        assert(segments@.map_values(|s: ModuleSegment| s@) =~= segments_spec(
                            lines0.drop_first(),
                        ));
                        break;
                    },
                },
            };
            let _ = lines.next();
            proof {
                assert(lines0.skip(1 + k as int + 1) =~= before.drop_first());
            }
            segments.push(seg);
            proof {
                assert(segments@.map_values(|s: ModuleSegment| s@) =~= old_segments_push(
                    segments@.drop_last().map_values(|s: ModuleSegment| s@),
                    seg@,
                ));
                k = k + 1;
            }
            assert(segments@.map_values(|s: ModuleSegment| s@) + segments_spec(lines.remaining())
                =~= segments_spec(lines0.drop_first()));
        }
        Ok(Module { name, segments })
    }
}

/// A module takes at least its heading line and no more lines than there are.
proof fn lemma_module_len(lines: Seq<Seq<char>>)
    ensures
        module_spec(lines) matches Ok((m, k)) ==> 0 < k <= lines.len(),
{
    if lines.len() > 0 {
        lemma_segments_len(lines.drop_first());
    }
}

pub open spec fn module_views(ms: Seq<Module>) -> Seq<ModuleView> {
    ms.map_values(|m: Module| m@)
}

impl Module {
    /// Reads the module list: the `Modules list:` heading and the modules
    /// after it, stopping before `Segment list:` or at the first line that
    /// starts no module.
    pub fn fetch_all(lines: &mut MapFileLines) -> (r: Result<Vec<Module>, MapFileError>)
        ensures
            r matches Ok(ms) ==> module_list_spec(old(lines).remaining()) matches Ok((mv, k))
                && module_views(ms@) == mv && final(lines).remaining() == old(
                lines,
            ).remaining().skip(k as int),
            r matches Err(e) ==> module_list_spec(old(lines).remaining()) == Err::<
                (Seq<ModuleView>, nat),
                MapFileError,
            >(e) && final(lines).remaining() == old(lines).remaining(),
    {
        let ghost lines0 = lines.remaining();
        let is_heading = match lines.peek() {
            Some(s) => str_eq(s, "Modules list:"),
            None => false,
        };
        if !is_heading {
            return Err(MapFileError::InvalidModuleList);
        }
        let _ = lines.next();
        let ghost l1 = lines.remaining();
        let ghost mut consumed: nat = 0;
        let mut modules: Vec<Module> = Vec::new();
        assert(l1.skip(0) =~= l1);
        assert(module_views(modules@) + modules_spec(l1).0 =~= modules_spec(l1).0);
        loop
            invariant
                consumed <= l1.len(),
                lines.remaining() == l1.skip(consumed as int),
                module_views(modules@) + modules_spec(lines.remaining()).0 == modules_spec(l1).0,
                consumed + modules_spec(lines.remaining()).1 == modules_spec(l1).1,
            ensures
                lines.remaining() == l1.skip(consumed as int),
                module_views(modules@) == modules_spec(l1).0,
                consumed == modules_spec(l1).1,
            decreases lines.remaining().len(),
        {
            let ghost before = lines.remaining();
            let at_end = match lines.peek() {
                Some(s) => str_eq(s, "Segment list:"),
                None => false,
            };
            if at_end {
                assert(module_views(modules@) =~= modules_spec(l1).0);
                break;
            }
            proof {
                lemma_module_len(before);
            }
            match Module::fetch(lines) {
                Ok(m) => {
                    let ghost k = module_spec(before)->Ok_0.1;
                    proof {
                        assert(lines.remaining() =~= l1.skip((consumed + k) as int));
                        consumed = consumed + k;
                    }
                    modules.push(m);
                    assert(module_views(modules@) =~= module_views(modules@.drop_last()).push(m@));
                    assert(module_views(modules@) + modules_spec(lines.remaining()).0
                        =~= modules_spec(l1).0);
                },
                Err(_) => {
                    assert(module_views(modules@) =~= modules_spec(l1).0);
                    break;
                },
            }
        }
        Ok(modules)
    }
}

spec fn old_segments_push(s: Seq<SegmentView>, v: SegmentView) -> Seq<SegmentView> {
    s.push(v)
}

} // verus!
