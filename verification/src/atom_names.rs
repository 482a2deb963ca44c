//! Atom names the server's atom table resolves: the names the property
//! decoders read, fixed here, and their lookup among the interned names.
use vstd::prelude::*;

use crate::metadata::XMetadataAtoms;
use crate::property::XAtom;
use crate::window_hints::XHintAtoms;

verus! {

/// One name the atom table has interned, with its atom.
#[derive(Clone, Debug, PartialEq, Eq)]
pub struct XAtomName {
    pub name: Vec<u8>,
    pub atom: XAtom,
}

/// The interned names as (name bytes, atom) pairs.
pub open spec fn atom_names_view(names: Seq<XAtomName>) -> Seq<(Seq<u8>, XAtom)> {
    names.map_values(|n: XAtomName| (n.name@, n.atom))
}

/// The atom interned for `name`: the first entry that carries it.
pub open spec fn atom_named(names: Seq<(Seq<u8>, XAtom)>, name: Seq<u8>) -> Option<XAtom>
    decreases names.len(),
{
    if names.len() == 0 {
        None
    } else if names[0].0 == name {
        Some(names[0].1)
    } else {
        atom_named(names.drop_first(), name)
    }
}

/// The atoms interned for those of `wanted` that are interned, in the
/// order of `wanted`.
pub open spec fn interned_atoms(names: Seq<(Seq<u8>, XAtom)>, wanted: Seq<Seq<u8>>) -> Seq<XAtom>
    decreases wanted.len(),
{
    if wanted.len() == 0 {
        Seq::empty()
    } else {
        let rest = interned_atoms(names, wanted.drop_last());
        match atom_named(names, wanted.last()) {
            Some(atom) => rest.push(atom),
            None => rest,
        }
    }
}

/// `WM_TRANSIENT_FOR`
pub open spec fn name_wm_transient_for() -> Seq<u8> {
    seq![87u8, 77u8, 95u8, 84u8, 82u8, 65u8, 78u8, 83u8, 73u8, 69u8, 78u8, 84u8, 95u8, 70u8, 79u8, 82u8]
}

/// `WINDOW`
pub open spec fn name_window() -> Seq<u8> {
    seq![87u8, 73u8, 78u8, 68u8, 79u8, 87u8]
}

/// `WM_NORMAL_HINTS`
pub open spec fn name_wm_normal_hints() -> Seq<u8> {
    seq![87u8, 77u8, 95u8, 78u8, 79u8, 82u8, 77u8, 65u8, 76u8, 95u8, 72u8, 73u8, 78u8, 84u8, 83u8]
}

/// `WM_SIZE_HINTS`
pub open spec fn name_wm_size_hints() -> Seq<u8> {
    seq![87u8, 77u8, 95u8, 83u8, 73u8, 90u8, 69u8, 95u8, 72u8, 73u8, 78u8, 84u8, 83u8]
}

/// `_NET_WM_WINDOW_TYPE`
pub open spec fn name_net_wm_window_type() -> Seq<u8> {
    seq![95u8, 78u8, 69u8, 84u8, 95u8, 87u8, 77u8, 95u8, 87u8, 73u8, 78u8, 68u8, 79u8, 87u8, 95u8, 84u8, 89u8, 80u8, 69u8]
}

/// `ATOM`
pub open spec fn name_atom() -> Seq<u8> {
    seq![65u8, 84u8, 79u8, 77u8]
}

/// `_NET_WM_WINDOW_TYPE_NORMAL`
pub open spec fn name_net_wm_window_type_normal() -> Seq<u8> {
    seq![95u8, 78u8, 69u8, 84u8, 95u8, 87u8, 77u8, 95u8, 87u8, 73u8, 78u8, 68u8, 79u8, 87u8, 95u8, 84u8, 89u8, 80u8, 69u8, 95u8, 78u8, 79u8, 82u8, 77u8, 65u8, 76u8]
}

/// `_NET_WM_STRUT`
pub open spec fn name_net_wm_strut() -> Seq<u8> {
    seq![95u8, 78u8, 69u8, 84u8, 95u8, 87u8, 77u8, 95u8, 83u8, 84u8, 82u8, 85u8, 84u8]
}

/// `_NET_WM_STRUT_PARTIAL`
pub open spec fn name_net_wm_strut_partial() -> Seq<u8> {
    seq![95u8, 78u8, 69u8, 84u8, 95u8, 87u8, 77u8, 95u8, 83u8, 84u8, 82u8, 85u8, 84u8, 95u8, 80u8, 65u8, 82u8, 84u8, 73u8, 65u8, 76u8]
}

/// `_NET_WM_WINDOW_TYPE_DESKTOP`
pub open spec fn name_net_wm_window_type_desktop() -> Seq<u8> {
    seq![95u8, 78u8, 69u8, 84u8, 95u8, 87u8, 77u8, 95u8, 87u8, 73u8, 78u8, 68u8, 79u8, 87u8, 95u8, 84u8, 89u8, 80u8, 69u8, 95u8, 68u8, 69u8, 83u8, 75u8, 84u8, 79u8, 80u8]
}

/// `_NET_WM_WINDOW_TYPE_DOCK`
pub open spec fn name_net_wm_window_type_dock() -> Seq<u8> {
    seq![95u8, 78u8, 69u8, 84u8, 95u8, 87u8, 77u8, 95u8, 87u8, 73u8, 78u8, 68u8, 79u8, 87u8, 95u8, 84u8, 89u8, 80u8, 69u8, 95u8, 68u8, 79u8, 67u8, 75u8]
}

/// `_NET_WM_WINDOW_TYPE_TOOLBAR`
pub open spec fn name_net_wm_window_type_toolbar() -> Seq<u8> {
    seq![95u8, 78u8, 69u8, 84u8, 95u8, 87u8, 77u8, 95u8, 87u8, 73u8, 78u8, 68u8, 79u8, 87u8, 95u8, 84u8, 89u8, 80u8, 69u8, 95u8, 84u8, 79u8, 79u8, 76u8, 66u8, 65u8, 82u8]
}

/// `_NET_WM_WINDOW_TYPE_MENU`
pub open spec fn name_net_wm_window_type_menu() -> Seq<u8> {
    seq![95u8, 78u8, 69u8, 84u8, 95u8, 87u8, 77u8, 95u8, 87u8, 73u8, 78u8, 68u8, 79u8, 87u8, 95u8, 84u8, 89u8, 80u8, 69u8, 95u8, 77u8, 69u8, 78u8, 85u8]
}

/// `_NET_WM_WINDOW_TYPE_UTILITY`
pub open spec fn name_net_wm_window_type_utility() -> Seq<u8> {
    seq![95u8, 78u8, 69u8, 84u8, 95u8, 87u8, 77u8, 95u8, 87u8, 73u8, 78u8, 68u8, 79u8, 87u8, 95u8, 84u8, 89u8, 80u8, 69u8, 95u8, 85u8, 84u8, 73u8, 76u8, 73u8, 84u8, 89u8]
}

/// `_NET_WM_WINDOW_TYPE_SPLASH`
pub open spec fn name_net_wm_window_type_splash() -> Seq<u8> {
    seq![95u8, 78u8, 69u8, 84u8, 95u8, 87u8, 77u8, 95u8, 87u8, 73u8, 78u8, 68u8, 79u8, 87u8, 95u8, 84u8, 89u8, 80u8, 69u8, 95u8, 83u8, 80u8, 76u8, 65u8, 83u8, 72u8]
}

/// `_NET_WM_WINDOW_TYPE_DIALOG`
pub open spec fn name_net_wm_window_type_dialog() -> Seq<u8> {
    seq![95u8, 78u8, 69u8, 84u8, 95u8, 87u8, 77u8, 95u8, 87u8, 73u8, 78u8, 68u8, 79u8, 87u8, 95u8, 84u8, 89u8, 80u8, 69u8, 95u8, 68u8, 73u8, 65u8, 76u8, 79u8, 71u8]
}

/// `_NET_WM_WINDOW_TYPE_DROPDOWN_MENU`
pub open spec fn name_net_wm_window_type_dropdown_menu() -> Seq<u8> {
    seq![95u8, 78u8, 69u8, 84u8, 95u8, 87u8, 77u8, 95u8, 87u8, 73u8, 78u8, 68u8, 79u8, 87u8, 95u8, 84u8, 89u8, 80u8, 69u8, 95u8, 68u8, 82u8, 79u8, 80u8, 68u8, 79u8, 87u8, 78u8, 95u8, 77u8, 69u8, 78u8, 85u8]
}

/// `_NET_WM_WINDOW_TYPE_POPUP_MENU`
pub open spec fn name_net_wm_window_type_popup_menu() -> Seq<u8> {
    seq![95u8, 78u8, 69u8, 84u8, 95u8, 87u8, 77u8, 95u8, 87u8, 73u8, 78u8, 68u8, 79u8, 87u8, 95u8, 84u8, 89u8, 80u8, 69u8, 95u8, 80u8, 79u8, 80u8, 85u8, 80u8, 95u8, 77u8, 69u8, 78u8, 85u8]
}

/// `_NET_WM_WINDOW_TYPE_TOOLTIP`
pub open spec fn name_net_wm_window_type_tooltip() -> Seq<u8> {
    seq![95u8, 78u8, 69u8, 84u8, 95u8, 87u8, 77u8, 95u8, 87u8, 73u8, 78u8, 68u8, 79u8, 87u8, 95u8, 84u8, 89u8, 80u8, 69u8, 95u8, 84u8, 79u8, 79u8, 76u8, 84u8, 73u8, 80u8]
}

/// `_NET_WM_WINDOW_TYPE_NOTIFICATION`
pub open spec fn name_net_wm_window_type_notification() -> Seq<u8> {
    seq![95u8, 78u8, 69u8, 84u8, 95u8, 87u8, 77u8, 95u8, 87u8, 73u8, 78u8, 68u8, 79u8, 87u8, 95u8, 84u8, 89u8, 80u8, 69u8, 95u8, 78u8, 79u8, 84u8, 73u8, 70u8, 73u8, 67u8, 65u8, 84u8, 73u8, 79u8, 78u8]
}

/// `_NET_WM_WINDOW_TYPE_COMBO`
pub open spec fn name_net_wm_window_type_combo() -> Seq<u8> {
    seq![95u8, 78u8, 69u8, 84u8, 95u8, 87u8, 77u8, 95u8, 87u8, 73u8, 78u8, 68u8, 79u8, 87u8, 95u8, 84u8, 89u8, 80u8, 69u8, 95u8, 67u8, 79u8, 77u8, 66u8, 79u8]
}

/// `_NET_WM_WINDOW_TYPE_DND`
pub open spec fn name_net_wm_window_type_dnd() -> Seq<u8> {
    seq![95u8, 78u8, 69u8, 84u8, 95u8, 87u8, 77u8, 95u8, 87u8, 73u8, 78u8, 68u8, 79u8, 87u8, 95u8, 84u8, 89u8, 80u8, 69u8, 95u8, 68u8, 78u8, 68u8]
}

/// `WM_NAME`
pub open spec fn name_wm_name() -> Seq<u8> {
    seq![87u8, 77u8, 95u8, 78u8, 65u8, 77u8, 69u8]
}

/// `_NET_WM_NAME`
pub open spec fn name_net_wm_name() -> Seq<u8> {
    seq![95u8, 78u8, 69u8, 84u8, 95u8, 87u8, 77u8, 95u8, 78u8, 65u8, 77u8, 69u8]
}

/// `WM_CLASS`
pub open spec fn name_wm_class() -> Seq<u8> {
    seq![87u8, 77u8, 95u8, 67u8, 76u8, 65u8, 83u8, 83u8]
}

/// `UTF8_STRING`
pub open spec fn name_utf8_string() -> Seq<u8> {
    seq![85u8, 84u8, 70u8, 56u8, 95u8, 83u8, 84u8, 82u8, 73u8, 78u8, 71u8]
}

/// The EWMH window types whose windows place themselves:
/// `_NET_WM_WINDOW_TYPE_` followed by `DESKTOP`, `DOCK`, `TOOLBAR`, `MENU`,
/// `UTILITY`, `SPLASH`, `DIALOG`, `DROPDOWN_MENU`, `POPUP_MENU`, `TOOLTIP`,
/// `NOTIFICATION`, `COMBO` and `DND`.
pub open spec fn client_positioned_type_names() -> Seq<Seq<u8>> {
    seq![
        name_net_wm_window_type_desktop(),
        name_net_wm_window_type_dock(),
        name_net_wm_window_type_toolbar(),
        name_net_wm_window_type_menu(),
        name_net_wm_window_type_utility(),
        name_net_wm_window_type_splash(),
        name_net_wm_window_type_dialog(),
        name_net_wm_window_type_dropdown_menu(),
        name_net_wm_window_type_popup_menu(),
        name_net_wm_window_type_tooltip(),
        name_net_wm_window_type_notification(),
        name_net_wm_window_type_combo(),
        name_net_wm_window_type_dnd(),
    ]
}

/// The properties that name a window's identity: its two titles and its
/// class.
pub open spec fn identity_property_names() -> Seq<Seq<u8>> {
    seq![name_wm_name(), name_net_wm_name(), name_wm_class()]
}

fn bytes_equal(a: &[u8], b: &[u8]) -> (equal: bool)
    ensures
        equal == (a@ == b@),
{
    if a.len() != b.len() {
        return false;
    }
    let mut i: usize = 0;
    while i < a.len()
        invariant
            a@.len() == b@.len(),
            i <= a@.len(),
            forall|j: int| 0 <= j < i ==> a@[j] == b@[j],
        decreases a@.len() - i,
    {
        if a[i] != b[i] {
            return false;
        }
        i = i + 1;
    }
    assert(a@ =~= b@);
    true
}

/// The atom interned for `name` among `names`.
pub fn lookup_atom(names: &[XAtomName], name: &[u8]) -> (atom: Option<XAtom>)
    ensures
        atom == atom_named(atom_names_view(names@), name@),
{
    let ghost view = atom_names_view(names@);
    let mut i: usize = 0;
    assert(view.skip(0) == view);
    while i < names.len()
        invariant
            i <= names@.len(),
            view == atom_names_view(names@),
            atom_named(view, name@) == atom_named(view.skip(i as int), name@),
        decreases names@.len() - i,
    {
        proof {
            assert(view.skip(i as int)[0] == view[i as int]);
            assert(view.skip(i as int).drop_first() == view.skip(i + 1));
        }
        if bytes_equal(names[i].name.as_slice(), name) {
            return Some(names[i].atom);
        }
        i = i + 1;
    }
    proof {
        assert(view.skip(i as int).len() == 0);
    }
    None
}

fn push_interned(names: &[XAtomName], name: &[u8], atoms: &mut Vec<XAtom>)
    ensures
        final(atoms)@ == match atom_named(atom_names_view(names@), name@) {
            Some(atom) => old(atoms)@.push(atom),
            None => old(atoms)@,
        },
{
    match lookup_atom(names, name) {
        Some(atom) => atoms.push(atom),
        None => {},
    }
}

impl XHintAtoms {
    /// The hint atoms as the interned `names` resolve them, with the window
    /// types that place themselves listed in the fixed EWMH order.
    pub fn from_atom_names(names: &[XAtomName]) -> (atoms: Self)
        ensures
            atoms.wm_transient_for == atom_named(atom_names_view(names@), name_wm_transient_for()),
            atoms.window == atom_named(atom_names_view(names@), name_window()),
            atoms.wm_normal_hints == atom_named(atom_names_view(names@), name_wm_normal_hints()),
            atoms.wm_size_hints == atom_named(atom_names_view(names@), name_wm_size_hints()),
            atoms.net_wm_window_type == atom_named(atom_names_view(names@), name_net_wm_window_type()),
            atoms.atom == atom_named(atom_names_view(names@), name_atom()),
            atoms.window_type_normal == atom_named(atom_names_view(names@), name_net_wm_window_type_normal()),
            atoms.net_wm_strut == atom_named(atom_names_view(names@), name_net_wm_strut()),
            atoms.net_wm_strut_partial == atom_named(atom_names_view(names@), name_net_wm_strut_partial()),
            atoms.client_positioned_window_types@ == interned_atoms(
                atom_names_view(names@),
                client_positioned_type_names(),
            ),
    {
        let ghost view = atom_names_view(names@);
        let wm_transient_for_name: [u8; 16] = [87, 77, 95, 84, 82, 65, 78, 83, 73, 69, 78, 84, 95, 70, 79, 82];
        assert(wm_transient_for_name@ == name_wm_transient_for());
        let window_name: [u8; 6] = [87, 73, 78, 68, 79, 87];
        assert(window_name@ == name_window());
        let wm_normal_hints_name: [u8; 15] = [87, 77, 95, 78, 79, 82, 77, 65, 76, 95, 72, 73, 78, 84, 83];
        assert(wm_normal_hints_name@ == name_wm_normal_hints());
        let wm_size_hints_name: [u8; 13] = [87, 77, 95, 83, 73, 90, 69, 95, 72, 73, 78, 84, 83];
        assert(wm_size_hints_name@ == name_wm_size_hints());
        let net_wm_window_type_name: [u8; 19] = [95, 78, 69, 84, 95, 87, 77, 95, 87, 73, 78, 68, 79, 87, 95, 84, 89, 80, 69];
        assert(net_wm_window_type_name@ == name_net_wm_window_type());
        let atom_name: [u8; 4] = [65, 84, 79, 77];
        assert(atom_name@ == name_atom());
        let window_type_normal_name: [u8; 26] = [95, 78, 69, 84, 95, 87, 77, 95, 87, 73, 78, 68, 79, 87, 95, 84, 89, 80, 69, 95, 78, 79, 82, 77, 65, 76];
        assert(window_type_normal_name@ == name_net_wm_window_type_normal());
        let net_wm_strut_name: [u8; 13] = [95, 78, 69, 84, 95, 87, 77, 95, 83, 84, 82, 85, 84];
        assert(net_wm_strut_name@ == name_net_wm_strut());
        let net_wm_strut_partial_name: [u8; 21] = [95, 78, 69, 84, 95, 87, 77, 95, 83, 84, 82, 85, 84, 95, 80, 65, 82, 84, 73, 65, 76];
        assert(net_wm_strut_partial_name@ == name_net_wm_strut_partial());
        let mut positioned: Vec<XAtom> = Vec::new();
        assert(positioned@ == interned_atoms(view, client_positioned_type_names().take(0)));
        let kind_name: [u8; 27] = [95, 78, 69, 84, 95, 87, 77, 95, 87, 73, 78, 68, 79, 87, 95, 84, 89, 80, 69, 95, 68, 69, 83, 75, 84, 79, 80];
        assert(kind_name@ == name_net_wm_window_type_desktop());
        push_interned(names, kind_name.as_slice(), &mut positioned);
        assert(client_positioned_type_names().take(1).drop_last() == client_positioned_type_names().take(0));
        assert(client_positioned_type_names().take(1).last() == name_net_wm_window_type_desktop());
        assert(positioned@ == interned_atoms(view, client_positioned_type_names().take(1)));
        let kind_name: [u8; 24] = [95, 78, 69, 84, 95, 87, 77, 95, 87, 73, 78, 68, 79, 87, 95, 84, 89, 80, 69, 95, 68, 79, 67, 75];
        assert(kind_name@ == name_net_wm_window_type_dock());
        push_interned(names, kind_name.as_slice(), &mut positioned);
        assert(client_positioned_type_names().take(2).drop_last() == client_positioned_type_names().take(1));
        assert(client_positioned_type_names().take(2).last() == name_net_wm_window_type_dock());
        assert(positioned@ == interned_atoms(view, client_positioned_type_names().take(2)));
        let kind_name: [u8; 27] = [95, 78, 69, 84, 95, 87, 77, 95, 87, 73, 78, 68, 79, 87, 95, 84, 89, 80, 69, 95, 84, 79, 79, 76, 66, 65, 82];
        assert(kind_name@ == name_net_wm_window_type_toolbar());
        push_interned(names, kind_name.as_slice(), &mut positioned);
        assert(client_positioned_type_names().take(3).drop_last() == client_positioned_type_names().take(2));
        assert(client_positioned_type_names().take(3).last() == name_net_wm_window_type_toolbar());
        assert(positioned@ == interned_atoms(view, client_positioned_type_names().take(3)));
        let kind_name: [u8; 24] = [95, 78, 69, 84, 95, 87, 77, 95, 87, 73, 78, 68, 79, 87, 95, 84, 89, 80, 69, 95, 77, 69, 78, 85];
        assert(kind_name@ == name_net_wm_window_type_menu());
        push_interned(names, kind_name.as_slice(), &mut positioned);
        assert(client_positioned_type_names().take(4).drop_last() == client_positioned_type_names().take(3));
        assert(client_positioned_type_names().take(4).last() == name_net_wm_window_type_menu());
        assert(positioned@ == interned_atoms(view, client_positioned_type_names().take(4)));
        let kind_name: [u8; 27] = [95, 78, 69, 84, 95, 87, 77, 95, 87, 73, 78, 68, 79, 87, 95, 84, 89, 80, 69, 95, 85, 84, 73, 76, 73, 84, 89];
        assert(kind_name@ == name_net_wm_window_type_utility());
        push_interned(names, kind_name.as_slice(), &mut positioned);
        assert(client_positioned_type_names().take(5).drop_last() == client_positioned_type_names().take(4));
        assert(client_positioned_type_names().take(5).last() == name_net_wm_window_type_utility());
        assert(positioned@ == interned_atoms(view, client_positioned_type_names().take(5)));
        let kind_name: [u8; 26] = [95, 78, 69, 84, 95, 87, 77, 95, 87, 73, 78, 68, 79, 87, 95, 84, 89, 80, 69, 95, 83, 80, 76, 65, 83, 72];
        assert(kind_name@ == name_net_wm_window_type_splash());
        push_interned(names, kind_name.as_slice(), &mut positioned);
        assert(client_positioned_type_names().take(6).drop_last() == client_positioned_type_names().take(5));
        assert(client_positioned_type_names().take(6).last() == name_net_wm_window_type_splash());
        assert(positioned@ == interned_atoms(view, client_positioned_type_names().take(6)));
        let kind_name: [u8; 26] = [95, 78, 69, 84, 95, 87, 77, 95, 87, 73, 78, 68, 79, 87, 95, 84, 89, 80, 69, 95, 68, 73, 65, 76, 79, 71];
        assert(kind_name@ == name_net_wm_window_type_dialog());
        push_interned(names, kind_name.as_slice(), &mut positioned);
        assert(client_positioned_type_names().take(7).drop_last() == client_positioned_type_names().take(6));
        assert(client_positioned_type_names().take(7).last() == name_net_wm_window_type_dialog());
        assert(positioned@ == interned_atoms(view, client_positioned_type_names().take(7)));
        let kind_name: [u8; 33] = [95, 78, 69, 84, 95, 87, 77, 95, 87, 73, 78, 68, 79, 87, 95, 84, 89, 80, 69, 95, 68, 82, 79, 80, 68, 79, 87, 78, 95, 77, 69, 78, 85];
        assert(kind_name@ == name_net_wm_window_type_dropdown_menu());
        push_interned(names, kind_name.as_slice(), &mut positioned);
        assert(client_positioned_type_names().take(8).drop_last() == client_positioned_type_names().take(7));
        assert(client_positioned_type_names().take(8).last() == name_net_wm_window_type_dropdown_menu());
        assert(positioned@ == interned_atoms(view, client_positioned_type_names().take(8)));
        let kind_name: [u8; 30] = [95, 78, 69, 84, 95, 87, 77, 95, 87, 73, 78, 68, 79, 87, 95, 84, 89, 80, 69, 95, 80, 79, 80, 85, 80, 95, 77, 69, 78, 85];
        assert(kind_name@ == name_net_wm_window_type_popup_menu());
        push_interned(names, kind_name.as_slice(), &mut positioned);
        assert(client_positioned_type_names().take(9).drop_last() == client_positioned_type_names().take(8));
        assert(client_positioned_type_names().take(9).last() == name_net_wm_window_type_popup_menu());
        assert(positioned@ == interned_atoms(view, client_positioned_type_names().take(9)));
        let kind_name: [u8; 27] = [95, 78, 69, 84, 95, 87, 77, 95, 87, 73, 78, 68, 79, 87, 95, 84, 89, 80, 69, 95, 84, 79, 79, 76, 84, 73, 80];
        assert(kind_name@ == name_net_wm_window_type_tooltip());
        push_interned(names, kind_name.as_slice(), &mut positioned);
        assert(client_positioned_type_names().take(10).drop_last() == client_positioned_type_names().take(9));
        assert(client_positioned_type_names().take(10).last() == name_net_wm_window_type_tooltip());
        assert(positioned@ == interned_atoms(view, client_positioned_type_names().take(10)));
        let kind_name: [u8; 32] = [95, 78, 69, 84, 95, 87, 77, 95, 87, 73, 78, 68, 79, 87, 95, 84, 89, 80, 69, 95, 78, 79, 84, 73, 70, 73, 67, 65, 84, 73, 79, 78];
        assert(kind_name@ == name_net_wm_window_type_notification());
        push_interned(names, kind_name.as_slice(), &mut positioned);
        assert(client_positioned_type_names().take(11).drop_last() == client_positioned_type_names().take(10));
        assert(client_positioned_type_names().take(11).last() == name_net_wm_window_type_notification());
        assert(positioned@ == interned_atoms(view, client_positioned_type_names().take(11)));
        let kind_name: [u8; 25] = [95, 78, 69, 84, 95, 87, 77, 95, 87, 73, 78, 68, 79, 87, 95, 84, 89, 80, 69, 95, 67, 79, 77, 66, 79];
        assert(kind_name@ == name_net_wm_window_type_combo());
        push_interned(names, kind_name.as_slice(), &mut positioned);
        assert(client_positioned_type_names().take(12).drop_last() == client_positioned_type_names().take(11));
        assert(client_positioned_type_names().take(12).last() == name_net_wm_window_type_combo());
        assert(positioned@ == interned_atoms(view, client_positioned_type_names().take(12)));
        let kind_name: [u8; 23] = [95, 78, 69, 84, 95, 87, 77, 95, 87, 73, 78, 68, 79, 87, 95, 84, 89, 80, 69, 95, 68, 78, 68];
        assert(kind_name@ == name_net_wm_window_type_dnd());
        push_interned(names, kind_name.as_slice(), &mut positioned);
        assert(client_positioned_type_names().take(13).drop_last() == client_positioned_type_names().take(12));
        assert(client_positioned_type_names().take(13).last() == name_net_wm_window_type_dnd());
        assert(positioned@ == interned_atoms(view, client_positioned_type_names().take(13)));
        assert(client_positioned_type_names().take(13) == client_positioned_type_names());
        XHintAtoms {
            wm_transient_for: lookup_atom(names, wm_transient_for_name.as_slice()),
            window: lookup_atom(names, window_name.as_slice()),
            wm_normal_hints: lookup_atom(names, wm_normal_hints_name.as_slice()),
            wm_size_hints: lookup_atom(names, wm_size_hints_name.as_slice()),
            net_wm_window_type: lookup_atom(names, net_wm_window_type_name.as_slice()),
            atom: lookup_atom(names, atom_name.as_slice()),
            window_type_normal: lookup_atom(names, window_type_normal_name.as_slice()),
            net_wm_strut: lookup_atom(names, net_wm_strut_name.as_slice()),
            net_wm_strut_partial: lookup_atom(names, net_wm_strut_partial_name.as_slice()),
            client_positioned_window_types: positioned,
        }
    }
}

impl XMetadataAtoms {
    /// The metadata atoms as the interned `names` resolve them; the
    /// identity properties are the window's two titles and its class.
    pub fn from_atom_names(names: &[XAtomName]) -> (atoms: Self)
        ensures
            atoms.wm_name == atom_named(atom_names_view(names@), name_wm_name()),
            atoms.net_wm_name == atom_named(atom_names_view(names@), name_net_wm_name()),
            atoms.wm_class == atom_named(atom_names_view(names@), name_wm_class()),
            atoms.utf8_string == atom_named(atom_names_view(names@), name_utf8_string()),
            atoms.candidate_properties@ == interned_atoms(
                atom_names_view(names@),
                identity_property_names(),
            ),
    {
        let ghost view = atom_names_view(names@);
        let wm_name_name: [u8; 7] = [87, 77, 95, 78, 65, 77, 69];
        assert(wm_name_name@ == name_wm_name());
        let net_wm_name_name: [u8; 12] = [95, 78, 69, 84, 95, 87, 77, 95, 78, 65, 77, 69];
        assert(net_wm_name_name@ == name_net_wm_name());
        let wm_class_name: [u8; 8] = [87, 77, 95, 67, 76, 65, 83, 83];
        assert(wm_class_name@ == name_wm_class());
        let utf8_string_name: [u8; 11] = [85, 84, 70, 56, 95, 83, 84, 82, 73, 78, 71];
        assert(utf8_string_name@ == name_utf8_string());
        let mut candidates: Vec<XAtom> = Vec::new();
        assert(candidates@ == interned_atoms(view, identity_property_names().take(0)));
        push_interned(names, wm_name_name.as_slice(), &mut candidates);
        assert(identity_property_names().take(1).drop_last() == identity_property_names().take(0));
        assert(candidates@ == interned_atoms(view, identity_property_names().take(1)));
        push_interned(names, net_wm_name_name.as_slice(), &mut candidates);
        assert(identity_property_names().take(2).drop_last() == identity_property_names().take(1));
        assert(candidates@ == interned_atoms(view, identity_property_names().take(2)));
        push_interned(names, wm_class_name.as_slice(), &mut candidates);
        assert(identity_property_names().take(3).drop_last() == identity_property_names().take(2));
        assert(identity_property_names().take(3) == identity_property_names());
        XMetadataAtoms {
            wm_name: lookup_atom(names, wm_name_name.as_slice()),
            net_wm_name: lookup_atom(names, net_wm_name_name.as_slice()),
            wm_class: lookup_atom(names, wm_class_name.as_slice()),
            utf8_string: lookup_atom(names, utf8_string_name.as_slice()),
            candidate_properties: candidates,
        }
    }
}

proof fn lemma_interned_atoms_contains(names: Seq<(Seq<u8>, XAtom)>, wanted: Seq<Seq<u8>>, atom: XAtom)
    ensures
        interned_atoms(names, wanted).contains(atom) <==> exists|i: int|
            0 <= i < wanted.len() && atom_named(names, #[trigger] wanted[i]) == Some(atom),
    decreases wanted.len(),
{
    if wanted.len() > 0 {
        let prefix = wanted.drop_last();
        lemma_interned_atoms_contains(names, prefix, atom);
        let rest = interned_atoms(names, prefix);
        if interned_atoms(names, wanted).contains(atom) {
            if !rest.contains(atom) {
                let k = choose|k: int| 0 <= k < interned_atoms(names, wanted).len()
                    && interned_atoms(names, wanted)[k] == atom;
                assert(atom_named(names, wanted[wanted.len() - 1]) == Some(atom));
            } else {
                let i = choose|i: int| 0 <= i < prefix.len() && atom_named(names, #[trigger] prefix[i])
                    == Some(atom);
                assert(wanted[i] == prefix[i]);
            }
        }
        if exists|i: int| 0 <= i < wanted.len() && atom_named(names, #[trigger] wanted[i]) == Some(atom) {
            let i = choose|i: int| 0 <= i < wanted.len() && atom_named(names, #[trigger] wanted[i]) == Some(atom);
            if i < prefix.len() {
                assert(prefix[i] == wanted[i]);
                let k = choose|k: int| 0 <= k < rest.len() && rest[k] == atom;
                assert(interned_atoms(names, wanted)[k] == atom);
            } else {
                let all = interned_atoms(names, wanted);
                assert(all[all.len() - 1] == atom);
            }
        }
    }
}

/// An atom counts as a self-placing window type exactly when it is the atom
/// interned for one of the thirteen EWMH type names.
pub proof fn law_client_positioned_types_are_the_ewmh_names(names: Seq<XAtomName>, atom: XAtom)
    ensures
        interned_atoms(atom_names_view(names), client_positioned_type_names()).contains(atom)
            <==> exists|i: int|
            0 <= i < 13 && atom_named(
                atom_names_view(names),
                #[trigger] client_positioned_type_names()[i],
            ) == Some(atom),
{
    lemma_interned_atoms_contains(atom_names_view(names), client_positioned_type_names(), atom);
}

} // verus!
