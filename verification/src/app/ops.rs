//! Logic behind the frontend commands.
use vstd::prelude::*;

use super::autostart::{AutostartControl, AutostartError};
use super::events::EventSink;
use super::hotkey::{HotkeyState, Registrar, RegistrarError, spec_hotkey_outcome, succeeded};
use super::state::AppState;
use crate::buffer::{find_item, has_id, without_id};
use crate::clipboard::{ClipError, ClipboardPort, WritePayload};
use crate::model::error::{AppError, ErrorKind};
use crate::model::item::{
    ClipItem, ItemDto, ItemId, TransferOutcome, TransferPreview, copy_opt, dto_matches, opt_view,
};
use crate::model::options::{TransferMode, TransferOptions};
use crate::model::settings::{Settings, same_settings};
use crate::settings::{SettingsDiff, diff, spec_diff, valid_settings, validate};
use crate::transform::{apply, spec_apply};
use crate::model::settings::SETTINGS_VERSION;
use vstd::std_specs::iter::IteratorSpec;

verus! {

/// Items newest first, as frontend DTOs.
pub open spec fn dtos_match(dtos: Seq<ItemDto>, items: Seq<ClipItem>) -> bool {
    &&& dtos.len() == items.len()
    &&& forall|i: int| 0 <= i < items.len() ==> dto_matches(#[trigger] dtos[i], items[i])
}

/// Items newest first.
pub fn list_items<P: ClipboardPort>(state: &AppState<P>) -> (res: Vec<ItemDto>)
    ensures
        dtos_match(res@, state.buffer@),
{
    let mut res: Vec<ItemDto> = Vec::new();
    let ghost items = state.buffer@;
    for item in it: state.buffer.items()
        invariant
            it.seq() == items.as_ref(),
            res@.len() == it.index(),
            forall|j: int| 0 <= j < it.index() ==> dto_matches(#[trigger] res@[j], items[j]),
    {
        res.push(item.to_dto());
    }
    res
}

/// The data a transfer writes: text, optional style data, and whether enabled text
/// transformations were skipped because style was kept.
pub struct TransferPlan {
    pub text: String,
    pub html: Option<String>,
    pub rtf: Option<String>,
    pub skipped_transforms: bool,
}

/// Style is kept for an `Options` transfer: the toggle is on and the item has style data.
pub open spec fn keeps_style(item: ClipItem, options: TransferOptions) -> bool {
    options.keep_style && item.spec_has_style()
}

/// Style wins over text transformations: they are skipped when style is kept and at least one
/// is enabled.
pub open spec fn skips_transforms(item: ClipItem, options: TransferOptions, mode: TransferMode) -> bool {
    mode == TransferMode::Options && keeps_style(item, options) && options.spec_has_text_transform()
}

/// The text a transfer writes.
pub open spec fn planned_text(
    item: ClipItem,
    options: TransferOptions,
    tab_width: u8,
    mode: TransferMode,
) -> Seq<char> {
    if mode == TransferMode::Options && !skips_transforms(item, options, mode) {
        spec_apply(item.text@, options, tab_width)
    } else {
        item.text@
    }
}

/// Whether a transfer writes the item's style data along with the text.
pub open spec fn writes_style(item: ClipItem, options: TransferOptions, mode: TransferMode) -> bool {
    match mode {
        TransferMode::Raw => true,
        TransferMode::Plain => false,
        TransferMode::Options => keeps_style(item, options),
    }
}

/// `plan` is what transferring `item` in `mode` writes.
pub open spec fn plan_matches(
    plan: TransferPlan,
    item: ClipItem,
    options: TransferOptions,
    tab_width: u8,
    mode: TransferMode,
) -> bool {
    &&& plan.text@ == planned_text(item, options, tab_width, mode)
    &&& opt_view(plan.html) == if writes_style(item, options, mode) {
        opt_view(item.html)
    } else {
        None
    }
    &&& opt_view(plan.rtf) == if writes_style(item, options, mode) {
        opt_view(item.rtf)
    } else {
        None
    }
    &&& plan.skipped_transforms == skips_transforms(item, options, mode)
}

/// What a transfer of `item` writes.
///
/// `Raw` writes the text and style as captured; `Plain` the text only; `Options` applies the
/// enabled text transformations, except that when style is kept and a transformation is
/// enabled, style wins and the text is written as captured.
pub fn plan_transfer(item: &ClipItem, options: &TransferOptions, tab_width: u8, mode: TransferMode) -> (plan:
    TransferPlan)
    ensures
        plan_matches(plan, *item, *options, tab_width, mode),
{
    match mode {
        TransferMode::Raw => TransferPlan {
            text: item.text.clone(),
            html: copy_opt(&item.html),
            rtf: copy_opt(&item.rtf),
            skipped_transforms: false,
        },
        TransferMode::Plain => TransferPlan {
            text: item.text.clone(),
            html: None,
            rtf: None,
            skipped_transforms: false,
        },
        TransferMode::Options => {
            let keep_style = options.keep_style && item.has_style();
            if keep_style && options.has_text_transform() {
                TransferPlan {
                    text: item.text.clone(),
                    html: copy_opt(&item.html),
                    rtf: copy_opt(&item.rtf),
                    skipped_transforms: true,
                }
            } else {
                let text = apply(item.text.as_str(), options, tab_width);
                if keep_style {
                    TransferPlan {
                        text,
                        html: copy_opt(&item.html),
                        rtf: copy_opt(&item.rtf),
                        skipped_transforms: false,
                    }
                } else {
                    TransferPlan { text, html: None, rtf: None, skipped_transforms: false }
                }
            }
        },
    }
}

/// The view of an optional string slice.
pub open spec fn opt_str_view(o: Option<&str>) -> Option<Seq<char>> {
    match o {
        Some(s) => Some(s@),
        None => None,
    }
}

/// `payload` is what transferring `item` in `mode` hands to the clipboard: the planned text, and
/// the item's style data exactly when style is written.
pub open spec fn payload_matches(
    payload: WritePayload,
    item: ClipItem,
    options: TransferOptions,
    tab_width: u8,
    mode: TransferMode,
) -> bool {
    &&& payload.text@ == planned_text(item, options, tab_width, mode)
    &&& opt_str_view(payload.html) == if writes_style(item, options, mode) {
        opt_view(item.html)
    } else {
        None
    }
    &&& opt_str_view(payload.rtf) == if writes_style(item, options, mode) {
        opt_view(item.rtf)
    } else {
        None
    }
}

fn as_opt_str(o: &Option<String>) -> (res: Option<&str>)
    ensures
        match res {
            Some(s) => o is Some && s@ == o->0@,
            None => o is None,
        },
{
    match o {
        Some(s) => Some(s.as_str()),
        None => None,
    }
}

/// Write an item back to the clipboard.
///
/// The buffered item is never modified; a new string is produced for the write. The text hash
/// is recorded *after* a successful write so a failed write cannot cause a later genuine copy
/// of the same text to be dropped.
pub fn transfer_item<P: ClipboardPort>(state: &mut AppState<P>, id: ItemId, mode: TransferMode) -> (res:
    Result<TransferOutcome, AppError>)
    ensures
        final(state).buffer == old(state).buffer,
        final(state).settings == old(state).settings,
        final(state).failures() == old(state).failures(),
        !has_id(old(state).buffer@, id) ==> {
            &&& res == Err::<TransferOutcome, AppError>(AppError { kind: ErrorKind::ItemNotFound })
            &&& final(state).last_write == old(state).last_write
        },
        has_id(old(state).buffer@, id) ==> {
            let item = find_item(old(state).buffer@, id);
            let options = old(state).settings@.transfer;
            let tab_width = old(state).settings@.tab_width;
            &&& exists|payload: WritePayload, written: Result<(), ClipError>|
                #[trigger] call_ensures(P::write, (&old(state).clipboard, payload), written)
                    && payload_matches(payload, item, options, tab_width, mode)
                    && (written is Ok <==> res is Ok)
            &&& match res {
                Ok(outcome) => {
                    &&& outcome.skipped_transforms == skips_transforms(item, options, mode)
                    &&& final(state).last_write.spec_matches(
                        planned_text(item, options, tab_width, mode),
                    )
                },
                Err(e) => {
                    &&& e == AppError { kind: ErrorKind::WriteFailed }
                    &&& final(state).last_write == old(state).last_write
                },
            }
        },
{
    let options = state.settings.get();
    let plan = match state.buffer.get(id) {
        Some(item) => plan_transfer(item, &options.transfer, options.tab_width, mode),
        None => {
            return Err(AppError { kind: ErrorKind::ItemNotFound });
        },
    };
    let payload = WritePayload {
        text: plan.text.as_str(),
        html: as_opt_str(&plan.html),
        rtf: as_opt_str(&plan.rtf),
    };
    let written = state.clipboard.write(payload);
    proof {
        assert(call_ensures(P::write, (&old(state).clipboard, payload), written));
    }
    match written {
        Ok(()) => {},
        Err(_) => {
            return Err(AppError { kind: ErrorKind::WriteFailed });
        },
    }
    state.last_write.record(plan.text.as_str());
    Ok(TransferOutcome { skipped_transforms: plan.skipped_transforms })
}

/// What an `Options` transfer of the item would write, without writing it.
pub fn preview_transfer<P: ClipboardPort>(state: &AppState<P>, id: ItemId) -> (res: Result<
    TransferPreview,
    AppError,
>)
    ensures
        !has_id(state.buffer@, id) ==> res == Err::<TransferPreview, AppError>(
            AppError { kind: ErrorKind::ItemNotFound },
        ),
        has_id(state.buffer@, id) ==> {
            let item = find_item(state.buffer@, id);
            let options = state.settings@.transfer;
            &&& res is Ok
            &&& res->Ok_0.text@ == planned_text(
                item,
                options,
                state.settings@.tab_width,
                TransferMode::Options,
            )
            &&& res->Ok_0.skipped_transforms == skips_transforms(item, options, TransferMode::Options)
        },
{
    let settings = state.settings.get();
    match state.buffer.get(id) {
        Some(item) => {
            let plan = plan_transfer(item, &settings.transfer, settings.tab_width, TransferMode::Options);
            Ok(TransferPreview { text: plan.text, skipped_transforms: plan.skipped_transforms })
        },
        None => Err(AppError { kind: ErrorKind::ItemNotFound }),
    }
}

/// Remove one item and announce the new list.
pub fn remove_item<P: ClipboardPort, S: EventSink>(state: &mut AppState<P>, sink: &S, id: ItemId) -> (res:
    Result<(), AppError>)
    ensures
        final(state).buffer@ == without_id(old(state).buffer@, id),
        final(state).buffer.next_id() == old(state).buffer.next_id(),
        final(state).buffer.spec_capacity() == old(state).buffer.spec_capacity(),
        final(state).settings == old(state).settings,
        final(state).last_write == old(state).last_write,
        res == if has_id(old(state).buffer@, id) {
            Ok::<(), AppError>(())
        } else {
            Err::<(), AppError>(AppError { kind: ErrorKind::ItemNotFound })
        },
        has_id(old(state).buffer@, id) ==> exists|v: Vec<ItemDto>|
            #[trigger] call_ensures(S::items_changed, (sink, v), ()) && dtos_match(
                v@,
                final(state).buffer@,
            ),
{
    let removed = state.buffer.remove(id);
    if !removed {
        return Err(AppError { kind: ErrorKind::ItemNotFound });
    }
    let items = list_items(state);
    let ghost listed = items;
    sink.items_changed(items);
    assert(call_ensures(S::items_changed, (sink, listed), ()));
    Ok(())
}

/// Remove every item and announce the (empty) list.
pub fn clear_items<P: ClipboardPort, S: EventSink>(state: &mut AppState<P>, sink: &S)
    ensures
        final(state).buffer@.len() == 0,
        final(state).buffer.next_id() == old(state).buffer.next_id(),
        final(state).buffer.spec_capacity() == old(state).buffer.spec_capacity(),
        final(state).settings == old(state).settings,
        final(state).last_write == old(state).last_write,
        exists|v: Vec<ItemDto>| #[trigger] call_ensures(S::items_changed, (sink, v), ()) && v@.len() == 0,
{
    state.buffer.clear();
    let items: Vec<ItemDto> = Vec::new();
    let ghost listed = items;
    sink.items_changed(items);
    assert(call_ensures(S::items_changed, (sink, listed), ()));
}

pub fn get_settings<P: ClipboardPort>(state: &AppState<P>) -> (res: Settings)
    ensures
        same_settings(res, state.settings@),
{
    state.settings.get()
}

/// Validate, persist and store `next`, returning the stored settings and what changed. Applying
/// the change (hotkey, autostart, capacity) and announcing it is the runtime's job.
///
/// Invalid settings are rejected before anything is written. When the write fails, its error is
/// returned and nothing is stored.
pub fn update_settings<P: ClipboardPort, W: SettingsWriter>(
    state: &mut AppState<P>,
    writer: &W,
    next: Settings,
) -> (res: Result<(Settings, SettingsDiff), AppError>)
    ensures
        final(state).buffer == old(state).buffer,
        valid_settings(next) ==> persisted(writer, Settings { version: SETTINGS_VERSION, ..next }, res),
        valid_settings(next) && res is Ok ==> {
            &&& final(state).settings@ == Settings { version: SETTINGS_VERSION, ..next }
            &&& same_settings(res->Ok_0.0, final(state).settings@)
            &&& res->Ok_0.1 == spec_diff(old(state).settings@, next)
        },
        res is Err ==> final(state).settings@ == old(state).settings@,
        !valid_settings(next) ==> res == Err::<(Settings, SettingsDiff), AppError>(
            AppError { kind: ErrorKind::InvalidSettings },
        ),
{
    match validate(&next) {
        Ok(()) => {},
        Err(kind) => {
            return Err(AppError { kind });
        },
    }
    let stored = Settings { version: SETTINGS_VERSION, ..next.clone() };
    let written = writer.write(&stored);
    let ghost target = Settings { version: SETTINGS_VERSION, ..next };
    assert(call_ensures(W::write, (writer, &stored), written));
    assert(same_settings(stored, target));
    match written {
        Ok(()) => {},
        Err(e) => {
            let res = Err(e);
            assert(persisted(writer, target, res));
            return res;
        },
    }
    let diff = match state.settings.update(next) {
        Ok(d) => d,
        Err(e) => {
            return Err(e);
        },
    };
    let res = Ok((state.settings.get(), diff));
    assert(persisted(writer, target, res));
    res
}

/// The new shortcut `parsed` was refused, and the registered shortcut went from `old_current` to
/// `new_current` as the replace-or-restore rule says: text that did not parse changes nothing;
/// otherwise the shortcut differed from the current one, the registrar rejected it, and the
/// previous one was registered again (kept when that succeeded, none when it failed too).
pub open spec fn hotkey_refused<K, R: Registrar<K>>(
    registrar: &R,
    old_current: Option<K>,
    new_current: Option<K>,
    parsed: Option<K>,
) -> bool {
    match parsed {
        None => new_current == old_current,
        Some(next) => {
            &&& old_current != parsed
            &&& exists|r1: Result<(), RegistrarError>, r2: Result<(), RegistrarError>|
                #![trigger call_ensures(R::register, (registrar, &next), r1), succeeded(r2)]
                call_ensures(R::register, (registrar, &next), r1) && r1 is Err && (
                old_current is Some ==> call_ensures(
                    R::register,
                    (registrar, &old_current->0),
                    r2,
                )) && new_current == spec_hotkey_outcome(
                    old_current,
                    next,
                    false,
                    succeeded(r2),
                ).0
        },
    }
}

/// Where settings are persisted before they take effect.
pub trait SettingsWriter {
    fn write(&self, settings: &Settings) -> Result<(), AppError>;
}

/// `settings` were handed to `writer`, and `res` follows what the write returned: success on
/// success, and the write's own error on failure.
pub open spec fn persisted<W: SettingsWriter, T>(
    writer: &W,
    settings: Settings,
    res: Result<T, AppError>,
) -> bool {
    exists|stored: Settings, written: Result<(), AppError>|
        #[trigger] call_ensures(W::write, (writer, &stored), written) && same_settings(
            stored,
            settings,
        ) && (written is Ok <==> res is Ok) && (written matches Err(e) ==> res == Err::<T, AppError>(
            e,
        ))
}

/// Validate `next`, register a changed hotkey, persist, then apply the change (capacity,
/// autostart) and announce it.
///
/// Invalid settings are rejected before anything is touched. When the new hotkey cannot be
/// registered, or the settings cannot be persisted, nothing is stored. A shrinking capacity that
/// drops items announces the new list; any change announces the stored settings; a failure to
/// change the launch-at-login registration is ignored.
pub fn apply_settings<P: ClipboardPort, K: Copy + PartialEq, R: Registrar<K>, A: AutostartControl, W: SettingsWriter, S: EventSink>(
    state: &mut AppState<P>,
    hotkeys: &mut HotkeyState<K>,
    registrar: &R,
    parsed_hotkey: Option<K>,
    autostart: &A,
    writer: &W,
    sink: &S,
    next: Settings,
) -> (res: Result<Settings, AppError>)
    requires
        vstd::laws_eq::obeys_concrete_eq::<K>(),
    ensures
        !valid_settings(next) ==> {
            &&& res == Err::<Settings, AppError>(AppError { kind: ErrorKind::InvalidSettings })
            &&& final(state).settings@ == old(state).settings@
            &&& final(state).buffer == old(state).buffer
            &&& final(hotkeys).spec_current() == old(hotkeys).spec_current()
        },
        valid_settings(next) ==> {
            let d = spec_diff(old(state).settings@, next);
            persisted(writer, Settings { version: SETTINGS_VERSION, ..next }, res) || (d.hotkey
                && res == Err::<Settings, AppError>(AppError { kind: ErrorKind::HotkeyUnavailable })
                && hotkey_refused(
                registrar,
                old(hotkeys).spec_current(),
                final(hotkeys).spec_current(),
                parsed_hotkey,
            ))
        },
        valid_settings(next) && res is Ok && old(state).buffer.spec_capacity() == old(
            state,
        ).settings@.capacity ==> final(state).buffer.spec_capacity() == next.capacity,
        valid_settings(next) && res is Ok ==> {
            let d = spec_diff(old(state).settings@, next);
            &&& d.autostart ==> exists|a: Result<(), AutostartError>|
                #[trigger] call_ensures(A::set_enabled, (autostart, next.autostart), a)
            &&& d.spec_any() ==> exists|s: Settings|
                #[trigger] call_ensures(S::settings_changed, (sink, s), ()) && same_settings(
                    s,
                    final(state).settings@,
                )
            &&& final(state).buffer@.len() < old(state).buffer@.len() ==> exists|v: Vec<ItemDto>|
                #[trigger] call_ensures(S::items_changed, (sink, v), ()) && dtos_match(
                    v@,
                    final(state).buffer@,
                )
        },
        valid_settings(next) ==> match res {
            Ok(stored) => {
                let d = spec_diff(old(state).settings@, next);
                &&& final(state).settings@ == Settings { version: SETTINGS_VERSION, ..next }
                &&& same_settings(stored, final(state).settings@)
                &&& d.hotkey ==> parsed_hotkey is Some && final(hotkeys).spec_current() == parsed_hotkey
                &&& !d.hotkey ==> final(hotkeys).spec_current() == old(hotkeys).spec_current()
                &&& d.capacity ==> {
                    &&& final(state).buffer.spec_capacity() == next.capacity
                    &&& final(state).buffer@ == old(state).buffer@.take(
                        vstd::math::min(old(state).buffer@.len() as int, next.capacity as int),
                    )
                }
                &&& !d.capacity ==> final(state).buffer == old(state).buffer
            },
            Err(_) => {
                &&& final(state).settings@ == old(state).settings@
                &&& final(state).buffer == old(state).buffer
            },
        },
{
    match validate(&next) {
        Ok(()) => {},
        Err(kind) => {
            return Err(AppError { kind });
        },
    }
    let changed = diff(&state.settings.get(), &next);
    if changed.hotkey {
        match hotkeys.apply(registrar, parsed_hotkey) {
            Ok(()) => {},
            Err(e) => {
                assert(e == AppError { kind: ErrorKind::HotkeyUnavailable });
                return Err(e);
            },
        }
    }
    let stored = Settings { version: SETTINGS_VERSION, ..next.clone() };
    let written = writer.write(&stored);
    let ghost target = Settings { version: SETTINGS_VERSION, ..next };
    assert(call_ensures(W::write, (writer, &stored), written));
    assert(same_settings(stored, target));
    match written {
        Ok(()) => {},
        Err(e) => {
            assert(persisted(writer, target, Err::<Settings, AppError>(e)));
            return Err(e);
        },
    }
    let enable = next.autostart;
    let capacity = next.capacity;
    let _ = state.settings.update(next);
    if changed.capacity {
        let before = state.buffer.len();
        state.buffer.set_capacity(capacity);
        if state.buffer.len() < before {
            let items = list_items(state);
            let ghost listed = items;
            sink.items_changed(items);
            assert(call_ensures(S::items_changed, (sink, listed), ()));
        }
    }
    if changed.autostart {
        let a = autostart.set_enabled(enable);
        assert(call_ensures(A::set_enabled, (autostart, enable), a));
    }
    let current = state.settings.get();
    if changed.any() {
        let announced = current.clone();
        let ghost shown = announced;
        sink.settings_changed(announced);
        assert(call_ensures(S::settings_changed, (sink, shown), ()));
    }
    let res = Ok(current);
    assert(persisted(writer, target, res));
    res
}

/// What a transfer hands to the clipboard, by mode: `Raw` writes the item's text with its own
/// html and rtf; `Plain` writes the item's text and no style data; `Options` writes the item's
/// html and rtf exactly when Keep style is on and the item has html or rtf (whether or not a text
/// transformation is enabled), and no style data otherwise.
pub proof fn lemma_transfer_payload_by_mode(
    payload: WritePayload,
    item: ClipItem,
    options: TransferOptions,
    tab_width: u8,
    mode: TransferMode,
)
    requires
        payload_matches(payload, item, options, tab_width, mode),
    ensures
        mode == TransferMode::Raw ==> {
            &&& payload.text@ == item.text@
            &&& opt_str_view(payload.html) == opt_view(item.html)
            &&& opt_str_view(payload.rtf) == opt_view(item.rtf)
        },
        mode == TransferMode::Plain ==> {
            &&& payload.text@ == item.text@
            &&& payload.html is None
            &&& payload.rtf is None
        },
        mode == TransferMode::Options && options.keep_style && (item.html is Some
            || item.rtf is Some) ==> {
            &&& opt_str_view(payload.html) == opt_view(item.html)
            &&& opt_str_view(payload.rtf) == opt_view(item.rtf)
        },
        mode == TransferMode::Options && !(options.keep_style && (item.html is Some
            || item.rtf is Some)) ==> {
            &&& payload.html is None
            &&& payload.rtf is None
        },
{
}

/// The same, for the plan a transfer makes: `Raw` keeps the item's text and style data, `Plain`
/// keeps its text and drops style, and `Options` keeps the item's html and rtf exactly when Keep
/// style is on and the item has html or rtf, whether or not a text transformation is enabled.
pub proof fn lemma_transfer_plan_by_mode(
    plan: TransferPlan,
    item: ClipItem,
    options: TransferOptions,
    tab_width: u8,
    mode: TransferMode,
)
    requires
        plan_matches(plan, item, options, tab_width, mode),
    ensures
        mode == TransferMode::Raw ==> {
            &&& plan.text@ == item.text@
            &&& opt_view(plan.html) == opt_view(item.html)
            &&& opt_view(plan.rtf) == opt_view(item.rtf)
        },
        mode == TransferMode::Plain ==> {
            &&& plan.text@ == item.text@
            &&& plan.html is None
            &&& plan.rtf is None
        },
        mode == TransferMode::Options && options.keep_style && (item.html is Some
            || item.rtf is Some) ==> {
            &&& opt_view(plan.html) == opt_view(item.html)
            &&& opt_view(plan.rtf) == opt_view(item.rtf)
        },
        mode == TransferMode::Options && !(options.keep_style && (item.html is Some
            || item.rtf is Some)) ==> {
            &&& plan.html is None
            &&& plan.rtf is None
        },
{
}

} // verus!
