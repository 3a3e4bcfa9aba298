use vstd::prelude::*;

use crate::describe::{SectionData, ValueKind};
use crate::describe_builder::{line_view, text_or_empty, with_line, with_section, BuilderState, SpanRole, StyledLine, TextSectionBuilder};
use crate::pod_describe::{copied, joined_list, list_values, or_empty};
use crate::strings::push_char;
use crate::values::{join_text, opt_text};

verus! {

/// The claim a persistent volume is bound to: its namespace and name, as text where they are
/// there.
pub struct ClaimRef {
    pub namespace: Option<String>,
    pub name: Option<String>,
}

/// `namespace/name`, or the one that is there; `None` without a claim or without either.
pub open spec fn claim_text(claim_ref: Option<ClaimRef>) -> Option<Seq<char>> {
    match claim_ref {
        Some(c) => match (c.namespace, c.name) {
            (Some(ns), Some(n)) => Some(ns@ + seq!['/'] + n@),
            (Some(ns), None) => Some(ns@),
            (None, Some(n)) => Some(n@),
            (None, None) => None,
        },
        None => None,
    }
}

/// Builds the text of the claim a persistent volume is bound to.
pub fn claim(claim_ref: Option<&ClaimRef>) -> (r: Option<String>)
    ensures
        opt_text(r) == claim_text(
            match claim_ref {
                Some(c) => Some(*c),
                None => None,
            },
        ),
{
    let c = match claim_ref {
        Some(c) => c,
        None => return None,
    };
    match (&c.namespace, &c.name) {
        (Some(ns), Some(n)) => {
            let mut text = ns.clone();
            push_char(&mut text, '/');
            <String as vstd::string::StringExecFns>::append(&mut text, n.as_str());
            assert(text@ =~= ns@ + seq!['/'] + n@);
            Some(text)
        },
        (Some(ns), None) => Some(ns.clone()),
        (None, Some(n)) => Some(n.clone()),
        (None, None) => None,
    }
}

/// What the storage section of a persistent volume reads: its status phase, its claim, and its
/// spec's storage settings (the access modes and mount options as the texts of their items).
pub struct VolumeValues {
    pub phase: Option<String>,
    pub claim_ref: Option<ClaimRef>,
    pub storage_class: Option<String>,
    pub capacity: Option<String>,
    pub access_modes: Option<Vec<Option<String>>>,
    pub volume_mode: Option<String>,
    pub reclaim_policy: Option<String>,
    pub mount_options: Option<Vec<Option<String>>>,
    pub attributes_class: Option<String>,
}

/// The lines of a persistent volume's storage section.
pub open spec fn volume_lines(d: VolumeValues) -> Seq<Seq<(SpanRole, Seq<char>)>> {
    let s0 = with_section(BuilderState { lines: seq![], indent: 0, width: None }, "Storage"@, 0, 2, Some(22));
    let s1 = with_line(s0, "Status"@, text_or_empty(d.phase), ValueKind::String);
    let s2 = with_line(s1, "Claim"@, or_empty(claim_text(d.claim_ref)), ValueKind::String);
    let s3 = with_line(s2, "StorageClass"@, text_or_empty(d.storage_class), ValueKind::String);
    let s4 = with_line(s3, "Capacity"@, text_or_empty(d.capacity), ValueKind::Numeric);
    let s5 = with_line(s4, "AccessModes"@, or_empty(join_text(list_values(d.access_modes))), ValueKind::String);
    let s6 = with_line(s5, "VolumeMode"@, text_or_empty(d.volume_mode), ValueKind::String);
    let s7 = with_line(s6, "Reclaim Policy"@, text_or_empty(d.reclaim_policy), ValueKind::String);
    let s8 = with_line(s7, "MountOptions"@, or_empty(join_text(list_values(d.mount_options))), ValueKind::String);
    with_line(s8, "VolumeAttributesClass"@, text_or_empty(d.attributes_class), ValueKind::String).lines
}

/// Rebuilds the describe section of a persistent volume: there is one, a text section (its
/// indentation is kept); anything else is left as it is.
pub fn update_additional_sections<R, L>(data: &VolumeValues, sections: &mut Vec<SectionData<Vec<StyledLine>, R, L>>)
    ensures
        old(sections)@.len() == 1 && old(sections)@[0] is Text ==> {
            &&& final(sections)@.len() == 1
            &&& match (old(sections)@[0], final(sections)@[0]) {
                (SectionData::Text(_, indent), SectionData::Text(lines, i)) => i == indent && lines@.map_values(
                    |l: StyledLine| line_view(l@),
                ) == volume_lines(*data),
                _ => false,
            }
        },
        !(old(sections)@.len() == 1 && old(sections)@[0] is Text) ==> final(sections)@ == old(sections)@,
{
    if sections.len() != 1 {
        return;
    }
    let section = sections.pop().unwrap();
    match section {
        SectionData::Text(_, indent) => {
            let mut builder = TextSectionBuilder::new(Vec::new());
            assert(builder@.lines =~= seq![]);
            builder.start_section("Storage", 0, 2, Some(22));
            builder.add_str("Status", copied(&data.phase));
            let c = match &data.claim_ref {
                Some(c) => claim(Some(c)),
                None => claim(None),
            };
            builder.add_str("Claim", c);
            builder.add_str("StorageClass", copied(&data.storage_class));
            builder.add_num("Capacity", copied(&data.capacity));
            builder.add_str("AccessModes", joined_list(&data.access_modes));
            builder.add_str("VolumeMode", copied(&data.volume_mode));
            builder.add_str("Reclaim Policy", copied(&data.reclaim_policy));
            builder.add_str("MountOptions", joined_list(&data.mount_options));
            builder.add_str("VolumeAttributesClass", copied(&data.attributes_class));
            sections.push(SectionData::Text(builder.into_lines(), indent));
        },
        other => {
            sections.push(other);
            assert(sections@ =~= old(sections)@);
        },
    }
}

} // verus!
