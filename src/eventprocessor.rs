use vstd::prelude::*;
use std::collections::HashMap;
use crate::event::{classify, role_of, EventRole, RawEvent, CARRIER_CODE, NOOP_CODE};

verus! {

broadcast use vstd::std_specs::hash::group_hash_axioms;

/// A mapping document as read from its source, before it is checked.
/// `button_map` lists `(source, destination)` pairs; a later pair for the same source wins.
pub struct MappingDocument {
    pub name_filter: String,
    pub base_code: i32,
    pub button_map: Vec<(u16, u16)>,
}

/// Why a mapping could not be loaded.
#[derive(Clone, Copy, Debug, PartialEq, Eq, Structural)]
pub enum LoadError {
    /// The source could not be read.
    Unreadable,
    /// The source does not hold a mapping document.
    Malformed,
    /// A pair names the no-op or the carrier code.
    ReservedCode,
}

/// The result of translating one event.
#[derive(Clone, Copy, Debug, PartialEq, Eq, Structural)]
pub enum TranslationOutcome {
    /// No rule applies: the event goes on as it is.
    Passthrough(RawEvent),
    /// The event, rewritten by the mapping.
    Remapped(RawEvent),
    /// The button code that needed translation and is not in the mapping.
    Unmapped(u16),
}

/// A button code, needed for translation, that the mapping lacks.
#[derive(Clone, Copy, Debug, PartialEq, Eq, Structural)]
pub struct ButtonNotContained {
    pub code: u16,
}

/// What a `CmdMap` holds.
pub struct MappingView {
    pub name_filter: Seq<char>,
    pub base_code: i32,
    pub buttons: Map<u16, u16>,
}

pub open spec fn is_reserved(code: u16) -> bool {
    code == NOOP_CODE || code == CARRIER_CODE
}

impl MappingView {
    /// No key and no value of the button table is a reserved code.
    pub open spec fn avoids_reserved(self) -> bool {
        table_avoids_reserved(self.buttons)
    }
}

pub open spec fn table_avoids_reserved(buttons: Map<u16, u16>) -> bool {
    forall|k: u16| #[trigger]
        buttons.contains_key(k) ==> !is_reserved(k) && !is_reserved(buttons[k])
}

/// The table that a list of pairs describes: each pair overrides the ones before it.
pub open spec fn entries_map(s: Seq<(u16, u16)>) -> Map<u16, u16>
    decreases s.len(),
{
    if s.len() == 0 {
        Map::empty()
    } else {
        entries_map(s.drop_last()).insert(s.last().0, s.last().1)
    }
}

pub open spec fn entries_avoid_reserved(s: Seq<(u16, u16)>) -> bool {
    forall|i: int| 0 <= i < s.len() ==> !is_reserved(#[trigger] s[i].0) && !is_reserved(s[i].1)
}

pub open spec fn document_view(doc: MappingDocument) -> MappingView {
    MappingView {
        name_filter: doc.name_filter@,
        base_code: doc.base_code,
        buttons: entries_map(doc.button_map@),
    }
}

/// What loading yields: the document where it is sound, else the empty mapping.
pub open spec fn loaded_view(loaded: Result<MappingDocument, LoadError>) -> MappingView {
    match loaded {
        Ok(doc) => if entries_avoid_reserved(doc.button_map@) {
            document_view(doc)
        } else {
            empty_view()
        },
        Err(_) => empty_view(),
    }
}

/// No name filter, no offset, no buttons.
pub open spec fn empty_view() -> MappingView {
    MappingView { name_filter: Seq::empty(), base_code: 0, buttons: Map::empty() }
}

pub open spec fn fits_i32(x: int) -> bool {
    i32::MIN <= x <= i32::MAX
}

/// The logical button that a carrier event names, before narrowing.
pub open spec fn carrier_logical(m: MappingView, e: RawEvent) -> int {
    e.value - m.base_code
}

/// Translation of one event under a mapping.
pub open spec fn translate_spec(m: MappingView, e: RawEvent) -> TranslationOutcome {
    if e.is_motion_or_sync() {
        TranslationOutcome::Passthrough(e)
    } else {
        match role_of(e.code) {
            EventRole::Terminator => TranslationOutcome::Passthrough(e),
            EventRole::Carrier => {
                let logical = carrier_logical(m, e);
                let lc = logical as u16;
                if 0 <= logical <= u16::MAX && m.buttons.contains_key(lc) && fits_i32(
                    m.buttons[lc] + m.base_code,
                ) {
                    TranslationOutcome::Remapped(
                        RawEvent {
                            event_type: e.event_type,
                            code: e.code,
                            value: (m.buttons[lc] + m.base_code) as i32,
                        },
                    )
                } else {
                    TranslationOutcome::Unmapped(lc)
                }
            },
            EventRole::Direct => if m.buttons.contains_key(e.code) {
                TranslationOutcome::Remapped(
                    RawEvent { event_type: e.event_type, code: m.buttons[e.code], value: e.value },
                )
            } else {
                TranslationOutcome::Unmapped(e.code)
            },
        }
    }
}

/// Motion and synchronisation events pass through unchanged, whatever the mapping holds.
pub proof fn lemma_motion_and_sync_pass_through(m: MappingView, e: RawEvent)
    requires
        e.is_motion_or_sync(),
    ensures
        translate_spec(m, e) == TranslationOutcome::Passthrough(e),
{
}

/// An event with the reserved no-op code passes through unchanged, whatever the mapping holds.
pub proof fn lemma_terminator_passes_through(m: MappingView, e: RawEvent)
    requires
        e.code == NOOP_CODE,
    ensures
        translate_spec(m, e) == TranslationOutcome::Passthrough(e),
{
}

/// A loaded button mapping: the device name filter, the base offset and the button table.
pub struct CmdMap {
    name_filter: String,
    base_code: i32,
    button_map: HashMap<u16, u16>,
}

impl View for CmdMap {
    type V = MappingView;

    closed spec fn view(&self) -> MappingView {
        MappingView {
            name_filter: self.name_filter@,
            base_code: self.base_code,
            buttons: self.button_map@,
        }
    }
}

impl CmdMap {
    /// The empty mapping: no name filter, no offset, no buttons.
    pub fn default() -> (r: CmdMap)
        ensures
            r@ == empty_view(),
            r@.avoids_reserved(),
    {
        let r = CmdMap { name_filter: String::new(), base_code: 0, button_map: HashMap::new() };
        assert(r@.name_filter =~= Seq::<char>::empty());
        r
    }

    /// Checks a document and builds its mapping; pairs are taken in order, the last one
    /// for a source code winning.
    pub fn from_document(doc: MappingDocument) -> (r: Result<CmdMap, LoadError>)
        ensures
            r is Ok <==> entries_avoid_reserved(doc.button_map@),
            r matches Ok(m) ==> m@ == document_view(doc) && m@.avoids_reserved(),
            r matches Err(e) ==> e == LoadError::ReservedCode,
    {
        let mut table: HashMap<u16, u16> = HashMap::new();
        let n = doc.button_map.len();
        let mut i: usize = 0;
        while i < n
            invariant
                n == doc.button_map@.len(),
                i <= n,
                entries_avoid_reserved(doc.button_map@.subrange(0, i as int)),
                table@ == entries_map(doc.button_map@.subrange(0, i as int)),
                table_avoids_reserved(table@),
            decreases n - i,
        {
            let (src, dst) = doc.button_map[i];
            if src == NOOP_CODE || src == CARRIER_CODE || dst == NOOP_CODE || dst == CARRIER_CODE {
                assert(doc.button_map@[i as int] == (src, dst));
                return Err(LoadError::ReservedCode);
            }
            table.insert(src, dst);
            proof {
                let s = doc.button_map@;
                assert(s.subrange(0, i + 1).drop_last() =~= s.subrange(0, i as int));
            }
            i = i + 1;
        }
        assert(doc.button_map@.subrange(0, n as int) =~= doc.button_map@);
        Ok(CmdMap { name_filter: doc.name_filter, base_code: doc.base_code, button_map: table })
    }

    /// The mapping that a load produced; the empty mapping where the load failed or the
    /// document names a reserved code.
    pub fn new(loaded: Result<MappingDocument, LoadError>) -> (r: CmdMap)
        ensures
            r@ == loaded_view(loaded),
            r@.avoids_reserved(),
            loaded is Err ==> r@.buttons.is_empty(),
    {
        match loaded {
            Ok(doc) => match CmdMap::from_document(doc) {
                Ok(map) => map,
                Err(_) => CmdMap::default(),
            },
            Err(_) => CmdMap::default(),
        }
    }

    pub fn get_name_filter(&self) -> (r: String)
        ensures
            r@ == self@.name_filter,
    {
        self.name_filter.clone()
    }

    pub fn base_code(&self) -> (r: i32)
        ensures
            r == self@.base_code,
    {
        self.base_code
    }

    /// The destination of a source button code, if the table has one.
    pub fn mapped_code(&self, code: u16) -> (r: Option<u16>)
        ensures
            r == (if self@.buttons.contains_key(code) {
                Some(self@.buttons[code])
            } else {
                None
            }),
    {
        match self.button_map.get(&code) {
            Some(d) => Some(*d),
            None => None,
        }
    }

    /// The number of source codes in the table.
    pub fn len(&self) -> (r: usize)
        ensures
            r == self@.buttons.len(),
    {
        self.button_map.len()
    }

    /// Translates one event (see `translate_spec`).
    pub fn translate(&self, inp: RawEvent) -> (r: TranslationOutcome)
        ensures
            r == translate_spec(self@, inp),
    {
        if inp.bypasses_translation() {
            return TranslationOutcome::Passthrough(inp);
        }
        match classify(inp.code) {
            EventRole::Terminator => TranslationOutcome::Passthrough(inp),
            EventRole::Carrier => {
                let logical: i64 = inp.value as i64 - self.base_code as i64;
                let lc: u16 = #[verifier::truncate] (logical as u16);
                if logical < 0 || logical > u16::MAX as i64 {
                    return TranslationOutcome::Unmapped(lc);
                }
                match self.button_map.get(&lc) {
                    Some(dst) => {
                        let out: i64 = *dst as i64 + self.base_code as i64;
                        if out < i32::MIN as i64 || out > i32::MAX as i64 {
                            TranslationOutcome::Unmapped(lc)
                        } else {
                            TranslationOutcome::Remapped(
                                RawEvent { event_type: inp.event_type, code: inp.code, value: out as i32 },
                            )
                        }
                    },
                    None => TranslationOutcome::Unmapped(lc),
                }
            },
            EventRole::Direct => match self.button_map.get(&inp.code) {
                Some(dst) => TranslationOutcome::Remapped(
                    RawEvent { event_type: inp.event_type, code: *dst, value: inp.value },
                ),
                None => TranslationOutcome::Unmapped(inp.code),
            },
        }
    }

    /// Translates one event, giving the passed-through or rewritten event, or the code that
    /// the mapping lacks.
    pub fn translate_command(&self, inp: RawEvent) -> (r: Result<RawEvent, ButtonNotContained>)
        ensures
            r == (match translate_spec(self@, inp) {
                TranslationOutcome::Passthrough(e) => Ok(e),
                TranslationOutcome::Remapped(e) => Ok(e),
                TranslationOutcome::Unmapped(code) => Err(ButtonNotContained { code }),
            }),
    {
        match self.translate(inp) {
            TranslationOutcome::Passthrough(e) => Ok(e),
            TranslationOutcome::Remapped(e) => Ok(e),
            TranslationOutcome::Unmapped(code) => Err(ButtonNotContained { code }),
        }
    }
}

} // verus!
