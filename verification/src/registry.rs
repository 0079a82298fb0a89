//! The registry of installed add-ons as a JSON document, written and read.
//!
//! The document is an array with one object for each add-on. An object holds
//! the `project`, the `kind` with what belongs to it, and the `id`; the
//! `version`, the `name` and the `dirs` where the add-on has them. Where to
//! download an add-on from, and under which name, is never written.

use vstd::prelude::*;
use vstd::string::*;
use crate::addon::{addon_views, Addon, AddonKind, AddonKindView, AddonView};
use crate::failure::Failure;
use crate::json::{
    array_view, lookup, member_views, object_view, views, Json, JsonView, Member, MemberView,
};
use crate::text::{
    decimal, from_decimal, names_view, number_of, number_of_decimal, same, text_view, to_decimal,
};

verus! {

/// The member `key` with the value `value`.
pub open spec fn entry(key: Seq<char>, value: JsonView) -> MemberView {
    MemberView { key, value }
}

/// The member `key` where there is a value for it.
pub open spec fn optional_entry(key: Seq<char>, value: Option<JsonView>) -> Seq<MemberView> {
    match value {
        Some(value) => seq![entry(key, value)],
        None => Seq::empty(),
    }
}

/// An optional text as a document.
pub open spec fn text_document(text: Option<Seq<char>>) -> Option<JsonView> {
    match text {
        Some(text) => Some(JsonView::Text(text)),
        None => None,
    }
}

/// Names as an array of texts.
pub open spec fn names_document(names: Seq<Seq<char>>) -> JsonView {
    JsonView::Array(Seq::new(names.len(), |i: int| JsonView::Text(names[i])))
}

/// Optional names as a document.
pub open spec fn optional_names_document(names: Option<Seq<Seq<char>>>) -> Option<JsonView> {
    match names {
        Some(names) => Some(names_document(names)),
        None => None,
    }
}

/// A source as a document: its name, or for a branch an object that holds
/// the branch under the name of the source.
pub open spec fn kind_document(kind: AddonKindView) -> JsonView {
    match kind {
        AddonKindView::GithubRelease => JsonView::Text("GithubRelease"@),
        AddonKindView::GithubRepo { branch } => JsonView::Object(
            seq![
                entry(
                    "GithubRepo"@,
                    JsonView::Object(seq![entry("branch"@, JsonView::Text(branch))]),
                ),
            ],
        ),
        AddonKindView::TukuiMain => JsonView::Text("TukuiMain"@),
        AddonKindView::TukuiAddon => JsonView::Text("TukuiAddon"@),
        AddonKindView::Gitlab => JsonView::Text("Gitlab"@),
        AddonKindView::WowInt => JsonView::Text("WowInt"@),
    }
}

/// The members of an add-on's object.
pub open spec fn addon_members(addon: AddonView) -> Seq<MemberView> {
    seq![entry("project"@, JsonView::Text(addon.project))] + optional_entry(
        "version"@,
        text_document(addon.version),
    ) + optional_entry("name"@, text_document(addon.name)) + seq![
        entry("kind"@, kind_document(addon.kind)),
        entry("id"@, JsonView::Number(decimal(addon.id as nat))),
    ] + optional_entry("dirs"@, optional_names_document(addon.dirs))
}

/// An add-on as a document.
pub open spec fn addon_document(addon: AddonView) -> JsonView {
    JsonView::Object(addon_members(addon))
}

/// A registry as a document.
pub open spec fn registry_document(registry: Seq<AddonView>) -> JsonView {
    JsonView::Array(Seq::new(registry.len(), |i: int| addon_document(registry[i])))
}

/// The optional text under `key`: none where the member is missing or null;
/// refused where it is anything but a text.
pub open spec fn optional_text_in(document: JsonView, key: Seq<char>) -> Option<Option<Seq<char>>> {
    match document.member(key) {
        None => Some(None),
        Some(JsonView::Null) => Some(None),
        Some(JsonView::Text(text)) => Some(Some(text)),
        Some(_) => None,
    }
}

/// The texts that `items` are; refused where one of them is no text.
pub open spec fn texts_in(items: Seq<JsonView>) -> Option<Seq<Seq<char>>> {
    if forall|i: int| 0 <= i < items.len() ==> items[i] is Text {
        Some(Seq::new(items.len(), |i: int| items[i]->Text_0))
    } else {
        None
    }
}

/// The optional names under `key`: none where the member is missing or
/// null; refused where it is anything but an array of texts.
pub open spec fn optional_names_in(document: JsonView, key: Seq<char>) -> Option<
    Option<Seq<Seq<char>>>,
> {
    match document.member(key) {
        None => Some(None),
        Some(JsonView::Null) => Some(None),
        Some(JsonView::Array(items)) => match texts_in(items) {
            Some(names) => Some(Some(names)),
            None => None,
        },
        Some(_) => None,
    }
}

/// The number under `key`: a number in decimal digits that fits 32 bits.
pub open spec fn id_in(document: JsonView, key: Seq<char>) -> Option<u32> {
    match document.member(key) {
        Some(JsonView::Number(digits)) => match number_of(digits) {
            Some(n) => if n <= u32::MAX {
                Some(n as u32)
            } else {
                None
            },
            None => None,
        },
        _ => None,
    }
}

/// The source that a document names.
pub open spec fn kind_in(document: JsonView) -> Option<AddonKindView> {
    match document {
        JsonView::Text(name) => if name == "GithubRelease"@ {
            Some(AddonKindView::GithubRelease)
        } else if name == "TukuiMain"@ {
            Some(AddonKindView::TukuiMain)
        } else if name == "TukuiAddon"@ {
            Some(AddonKindView::TukuiAddon)
        } else if name == "Gitlab"@ {
            Some(AddonKindView::Gitlab)
        } else if name == "WowInt"@ {
            Some(AddonKindView::WowInt)
        } else {
            None
        },
        JsonView::Object(_) => match document.member("GithubRepo"@) {
            Some(inner) => match inner.text_at("branch"@) {
                Some(branch) => Some(AddonKindView::GithubRepo { branch }),
                None => None,
            },
            None => None,
        },
        _ => None,
    }
}

/// The source under `key`.
pub open spec fn kind_under(document: JsonView, key: Seq<char>) -> Option<AddonKindView> {
    match document.member(key) {
        Some(kind) => kind_in(kind),
        None => None,
    }
}

/// The add-on that a document holds; refused where `project`, `kind` or `id`
/// is missing or one of the members is not what it is bound to be.
pub open spec fn addon_in(document: JsonView) -> Option<AddonView> {
    match (
        document.text_at("project"@),
        optional_text_in(document, "version"@),
        optional_text_in(document, "name"@),
        kind_under(document, "kind"@),
        id_in(document, "id"@),
        optional_names_in(document, "dirs"@),
    ) {
        (Some(project), Some(version), Some(name), Some(kind), Some(id), Some(dirs)) => Some(
            AddonView {
                project,
                version,
                name,
                kind,
                id,
                dirs,
                download_url: None,
                filename: None,
            },
        ),
        _ => None,
    }
}

/// The add-ons that `items` hold, refused where one of them holds none.
pub open spec fn addons_in(items: Seq<JsonView>) -> Option<Seq<AddonView>> {
    if forall|i: int| 0 <= i < items.len() ==> addon_in(items[i]) is Some {
        Some(Seq::new(items.len(), |i: int| addon_in(items[i])->0))
    } else {
        None
    }
}

/// The registry that a document holds: an array of add-ons.
pub open spec fn registry_in(document: JsonView) -> Option<Seq<AddonView>> {
    match document {
        JsonView::Array(items) => addons_in(items),
        _ => None,
    }
}

/// The registry that a store holds: an empty one where the store is missing
/// or empty.
pub open spec fn stored_registry(document: Option<JsonView>) -> Option<Seq<AddonView>> {
    match document {
        Some(document) => registry_in(document),
        None => Some(Seq::empty()),
    }
}

/// An add-on as it is written: without the address and the name of its
/// download.
pub open spec fn persisted(addon: AddonView) -> AddonView {
    AddonView { download_url: None, filename: None, ..addon }
}

/// Each add-on of a registry as it is written.
pub open spec fn persisted_all(registry: Seq<AddonView>) -> Seq<AddonView> {
    Seq::new(registry.len(), |i: int| persisted(registry[i]))
}

/// A member is looked up in the front of the members before it is looked up
/// in what follows.
pub proof fn lookup_in_parts(front: Seq<MemberView>, back: Seq<MemberView>, key: Seq<char>)
    ensures
        lookup(front + back, key) == match lookup(front, key) {
            Some(value) => Some(value),
            None => lookup(back, key),
        },
    decreases front.len(),
{
    if front.len() == 0 {
        assert(front + back =~= back);
    } else {
        assert((front + back).first() == front.first());
        assert((front + back).drop_first() =~= front.drop_first() + back);
        if front.first().key != key {
            lookup_in_parts(front.drop_first(), back, key);
        }
    }
}

/// Among the members that an optional entry gives, only its key is found.
pub proof fn lookup_in_optional_entry(key: Seq<char>, value: Option<JsonView>, wanted: Seq<char>)
    ensures
        lookup(optional_entry(key, value), wanted) == if key == wanted {
            value
        } else {
            None
        },
{
    let members = optional_entry(key, value);
    assert(lookup(Seq::<MemberView>::empty(), wanted) is None);
    if value is Some {
        assert(members.first() == entry(key, value->0));
        assert(members.drop_first() =~= Seq::<MemberView>::empty());
    }
}

/// What the members of an add-on's object hold under each of the six keys.
pub proof fn members_of_addon(addon: AddonView)
    ensures
        lookup(addon_members(addon), "project"@) == Some(JsonView::Text(addon.project)),
        lookup(addon_members(addon), "version"@) == text_document(addon.version),
        lookup(addon_members(addon), "name"@) == text_document(addon.name),
        lookup(addon_members(addon), "kind"@) == Some(kind_document(addon.kind)),
        lookup(addon_members(addon), "id"@) == Some(JsonView::Number(decimal(addon.id as nat))),
        lookup(addon_members(addon), "dirs"@) == optional_names_document(addon.dirs),
{
    reveal_strlit("project");
    reveal_strlit("version");
    reveal_strlit("name");
    reveal_strlit("kind");
    reveal_strlit("id");
    reveal_strlit("dirs");
    let first = optional_entry("project"@, Some(JsonView::Text(addon.project)));
    let version = optional_entry("version"@, text_document(addon.version));
    let name = optional_entry("name"@, text_document(addon.name));
    let kind = optional_entry("kind"@, Some(kind_document(addon.kind)));
    let id = optional_entry("id"@, Some(JsonView::Number(decimal(addon.id as nat))));
    let dirs = optional_entry("dirs"@, optional_names_document(addon.dirs));
    assert(kind + id =~= seq![
        entry("kind"@, kind_document(addon.kind)),
        entry("id"@, JsonView::Number(decimal(addon.id as nat))),
    ]);
    assert(addon_members(addon) == first + version + name + (kind + id) + dirs);
    assert forall|wanted: Seq<char>|
        lookup(addon_members(addon), wanted) == match lookup(first, wanted) {
            Some(v) => Some(v),
            None => match lookup(version, wanted) {
                Some(v) => Some(v),
                None => match lookup(name, wanted) {
                    Some(v) => Some(v),
                    None => match lookup(kind, wanted) {
                        Some(v) => Some(v),
                        None => match lookup(id, wanted) {
                            Some(v) => Some(v),
                            None => lookup(dirs, wanted),
                        },
                    },
                },
            },
        } by {
        lookup_in_parts(first + version + name + (kind + id), dirs, wanted);
        lookup_in_parts(first + version + name, kind + id, wanted);
        lookup_in_parts(first + version, name, wanted);
        lookup_in_parts(first, version, wanted);
        lookup_in_parts(kind, id, wanted);
    }
    assert forall|key: Seq<char>, value: Option<JsonView>, wanted: Seq<char>|
        #[trigger] lookup(optional_entry(key, value), wanted) == if key == wanted {
            value
        } else {
            None
        } by {
        lookup_in_optional_entry(key, value, wanted);
    }
    assert("project"@.len() == 7 && "version"@.len() == 7 && "name"@.len() == 4 && "kind"@.len()
        == 4 && "id"@.len() == 2 && "dirs"@.len() == 4);
    assert("project"@[0] == 'p' && "version"@[0] == 'v' && "name"@[0] == 'n' && "kind"@[0] == 'k'
        && "dirs"@[0] == 'd');
}

/// A source that was written is read again.
pub proof fn kind_is_read_again(kind: AddonKindView)
    ensures
        kind_in(kind_document(kind)) == Some(kind),
{
    reveal_strlit("GithubRelease");
    reveal_strlit("TukuiMain");
    reveal_strlit("TukuiAddon");
    reveal_strlit("Gitlab");
    reveal_strlit("WowInt");
    assert("GithubRelease"@[0] == 'G' && "GithubRelease"@[1] == 'i' && "Gitlab"@[2] == 't' && "GithubRelease"@[2] == 't' && "GithubRelease"@[3] == 'h');
    assert("Gitlab"@[0] == 'G' && "Gitlab"@[3] == 'l');
    assert("TukuiMain"@[0] == 'T' && "TukuiMain"@[5] == 'M');
    assert("TukuiAddon"@[0] == 'T' && "TukuiAddon"@[5] == 'A');
    assert("WowInt"@[0] == 'W');
    match kind {
        AddonKindView::GithubRepo { branch } => {
            lookup_in_optional_entry(
                "GithubRepo"@,
                Some(JsonView::Object(seq![entry("branch"@, JsonView::Text(branch))])),
                "GithubRepo"@,
            );
            lookup_in_optional_entry("branch"@, Some(JsonView::Text(branch)), "branch"@);
        },
        _ => {},
    }
}

/// An add-on that was written is read again: the same add-on, without the
/// address and the name of its download.
pub proof fn addon_is_read_again(addon: AddonView)
    ensures
        addon_in(addon_document(addon)) == Some(persisted(addon)),
{
    members_of_addon(addon);
    kind_is_read_again(addon.kind);
    number_of_decimal(addon.id as nat);
    match addon.dirs {
        Some(names) => {
            let items = Seq::new(names.len(), |i: int| JsonView::Text(names[i]));
            assert(texts_in(items)->0 =~= names);
        },
        None => {},
    }
}

/// A registry that was written is read again: the same add-ons in the same
/// order, each without the address and the name of its download.
pub proof fn registry_is_read_again(registry: Seq<AddonView>)
    ensures
        stored_registry(Some(registry_document(registry))) == Some(persisted_all(registry)),
{
    let items = Seq::new(registry.len(), |i: int| addon_document(registry[i]));
    assert forall|i: int| 0 <= i < items.len() implies addon_in(items[i]) == Some(
        persisted(registry[i]),
    ) by {
        addon_is_read_again(registry[i]);
    }
    assert(addons_in(items)->0 =~= persisted_all(registry));
}

/// A member with the key `key`.
fn member(key: &str, value: Json) -> (r: Member)
    ensures
        r.key@ == key@,
        r.value == value,
{
    Member { key: key.to_owned(), value }
}

/// An object with the single member `key`.
fn single(key: &str, value: Json) -> (r: Json)
    ensures
        r@ == JsonView::Object(seq![entry(key@, value@)]),
{
    let mut members: Vec<Member> = Vec::new();
    members.push(member(key, value));
    proof {
        object_view(members);
        assert(member_views(members@) =~= seq![entry(key@, value@)]);
    }
    Json::Object(members)
}

/// `names` as an array of texts.
fn names_to_json(names: &Vec<String>) -> (r: Json)
    ensures
        r@ == names_document(names_view(names@)),
{
    let mut items: Vec<Json> = Vec::new();
    let mut i: usize = 0;
    while i < names.len()
        invariant
            i <= names.len(),
            items@.len() == i,
            forall|j: int| 0 <= j < i ==> items@[j]@ == JsonView::Text(names@[j]@),
        decreases names.len() - i,
    {
        items.push(Json::Text(names[i].clone()));
        i += 1;
    }
    proof {
        array_view(items);
        assert(views(items@) =~= Seq::new(
            names_view(names@).len(),
            |i: int| JsonView::Text(names_view(names@)[i]),
        ));
    }
    Json::Array(items)
}

/// The source `kind` as a document.
pub fn kind_to_json(kind: &AddonKind) -> (r: Json)
    ensures
        r@ == kind_document(kind@),
{
    match kind {
        AddonKind::GithubRelease => Json::Text(String::from_str("GithubRelease")),
        AddonKind::GithubRepo { branch } => single(
            "GithubRepo",
            single("branch", Json::Text(branch.clone())),
        ),
        AddonKind::TukuiMain => Json::Text(String::from_str("TukuiMain")),
        AddonKind::TukuiAddon => Json::Text(String::from_str("TukuiAddon")),
        AddonKind::Gitlab => Json::Text(String::from_str("Gitlab")),
        AddonKind::WowInt => Json::Text(String::from_str("WowInt")),
    }
}

/// The add-on as a document.
pub fn addon_to_json(addon: &Addon) -> (r: Json)
    ensures
        r@ == addon_document(addon@),
{
    let mut members: Vec<Member> = Vec::new();
    members.push(member("project", Json::Text(addon.project.clone())));
    let ghost first = seq![entry("project"@, JsonView::Text(addon@.project))];
    assert(member_views(members@) =~= first);
    match &addon.version {
        Some(version) => {
            members.push(member("version", Json::Text(version.clone())));
        },
        None => {},
    }
    let ghost second = first + optional_entry("version"@, text_document(addon@.version));
    assert(member_views(members@) =~= second);
    match &addon.name {
        Some(name) => {
            members.push(member("name", Json::Text(name.clone())));
        },
        None => {},
    }
    let ghost third = second + optional_entry("name"@, text_document(addon@.name));
    assert(member_views(members@) =~= third);
    members.push(member("kind", kind_to_json(&addon.kind)));
    members.push(member("id", Json::Number(to_decimal(addon.id))));
    let ghost fourth = third + seq![
        entry("kind"@, kind_document(addon@.kind)),
        entry("id"@, JsonView::Number(decimal(addon@.id as nat))),
    ];
    assert(member_views(members@) =~= fourth);
    match &addon.dirs {
        Some(dirs) => {
            members.push(member("dirs", names_to_json(dirs)));
        },
        None => {},
    }
    let ghost fifth = fourth + optional_entry("dirs"@, optional_names_document(addon@.dirs));
    assert(member_views(members@) =~= fifth);
    proof {
        object_view(members);
    }
    Json::Object(members)
}

/// The registry as a document, to be written in the place of the old one.
pub fn write_addons(addons: &Vec<Addon>) -> (r: Json)
    ensures
        r@ == registry_document(addon_views(addons@)),
{
    let mut items: Vec<Json> = Vec::new();
    let mut i: usize = 0;
    while i < addons.len()
        invariant
            i <= addons.len(),
            items@.len() == i,
            forall|j: int| 0 <= j < i ==> items@[j]@ == addon_document(addons@[j]@),
        decreases addons.len() - i,
    {
        items.push(addon_to_json(&addons[i]));
        i += 1;
    }
    proof {
        array_view(items);
        assert(views(items@) =~= Seq::new(
            addon_views(addons@).len(),
            |i: int| addon_document(addon_views(addons@)[i]),
        ));
    }
    Json::Array(items)
}

/// The optional text under `key`.
fn read_optional_text(document: &Json, key: &str) -> (r: Option<Option<String>>)
    ensures
        match r {
            Some(text) => optional_text_in(document@, key@) == Some(text_view(text)),
            None => optional_text_in(document@, key@) is None,
        },
{
    match document.get(key) {
        None => Some(None),
        Some(Json::Null) => Some(None),
        Some(Json::Text(text)) => Some(Some(text.clone())),
        Some(_) => None,
    }
}

/// The texts that `items` are.
fn read_texts(items: &Vec<Json>) -> (r: Option<Vec<String>>)
    ensures
        match r {
            Some(names) => texts_in(views(items@)) == Some(names_view(names@)),
            None => texts_in(views(items@)) is None,
        },
{
    let mut names: Vec<String> = Vec::new();
    let mut i: usize = 0;
    while i < items.len()
        invariant
            i <= items.len(),
            names@.len() == i,
            forall|j: int| 0 <= j < i ==> views(items@)[j] == JsonView::Text(names@[j]@),
        decreases items.len() - i,
    {
        match &items[i] {
            Json::Text(text) => {
                names.push(text.clone());
            },
            _ => {
                assert(!(views(items@)[i as int] is Text));
                return None;
            },
        }
        i += 1;
    }
    assert(names_view(names@) =~= texts_in(views(items@))->0);
    Some(names)
}

/// The optional names under `key`.
fn read_optional_names(document: &Json, key: &str) -> (r: Option<Option<Vec<String>>>)
    ensures
        match r {
            Some(Some(names)) => optional_names_in(document@, key@) == Some(
                Some(names_view(names@)),
            ),
            Some(None) => optional_names_in(document@, key@) == Some(
                None::<Seq<Seq<char>>>,
            ),
            None => optional_names_in(document@, key@) is None,
        },
{
    match document.get(key) {
        None => Some(None),
        Some(Json::Null) => Some(None),
        Some(Json::Array(items)) => {
            proof {
                array_view(*items);
            }
            match read_texts(items) {
                Some(names) => Some(Some(names)),
                None => None,
            }
        },
        Some(_) => None,
    }
}

/// The number under `key`.
fn read_id(document: &Json, key: &str) -> (r: Option<u32>)
    ensures
        r == id_in(document@, key@),
{
    match document.get(key) {
        Some(Json::Number(digits)) => from_decimal(digits.as_str()),
        _ => None,
    }
}

/// The source that `document` names.
pub fn kind_from_json(document: &Json) -> (r: Option<AddonKind>)
    ensures
        match r {
            Some(kind) => kind_in(document@) == Some(kind@),
            None => kind_in(document@) is None,
        },
{
    match document {
        Json::Text(name) => if same(name.as_str(), "GithubRelease") {
            Some(AddonKind::GithubRelease)
        } else if same(name.as_str(), "TukuiMain") {
            Some(AddonKind::TukuiMain)
        } else if same(name.as_str(), "TukuiAddon") {
            Some(AddonKind::TukuiAddon)
        } else if same(name.as_str(), "Gitlab") {
            Some(AddonKind::Gitlab)
        } else if same(name.as_str(), "WowInt") {
            Some(AddonKind::WowInt)
        } else {
            None
        },
        Json::Object(_) => match document.get("GithubRepo") {
            Some(inner) => match inner.text_at("branch") {
                Some(branch) => Some(AddonKind::GithubRepo { branch: branch.to_owned() }),
                None => None,
            },
            None => None,
        },
        _ => None,
    }
}

/// The add-on that `document` holds.
pub fn addon_from_json(document: &Json) -> (r: Option<Addon>)
    ensures
        match r {
            Some(addon) => addon_in(document@) == Some(addon@),
            None => addon_in(document@) is None,
        },
{
    let project = match document.text_at("project") {
        Some(project) => project.to_owned(),
        None => {
            return None;
        },
    };
    let version = match read_optional_text(document, "version") {
        Some(version) => version,
        None => {
            return None;
        },
    };
    let name = match read_optional_text(document, "name") {
        Some(name) => name,
        None => {
            return None;
        },
    };
    let kind = match document.get("kind") {
        Some(kind) => match kind_from_json(kind) {
            Some(kind) => kind,
            None => {
                return None;
            },
        },
        None => {
            return None;
        },
    };
    let id = match read_id(document, "id") {
        Some(id) => id,
        None => {
            return None;
        },
    };
    let dirs = match read_optional_names(document, "dirs") {
        Some(dirs) => dirs,
        None => {
            return None;
        },
    };
    Some(Addon { project, version, name, kind, id, dirs, download_url: None, filename: None })
}

/// The registry that the store holds. `document` is what the store holds,
/// or nothing where the store is missing or empty: the registry is then
/// empty. A document that is no array of add-ons is refused.
pub fn read_addons(document: Option<&Json>) -> (r: Result<Vec<Addon>, Failure>)
    ensures
        match r {
            Ok(addons) => stored_registry(
                match document {
                    Some(document) => Some(document@),
                    None => None,
                },
            ) == Some(addon_views(addons@)),
            Err(e) => e == Failure::MalformedRegistry && stored_registry(
                match document {
                    Some(document) => Some(document@),
                    None => None,
                },
            ) is None,
        },
{
    let items = match document {
        Some(Json::Array(items)) => items,
        Some(_) => {
            return Err(Failure::MalformedRegistry);
        },
        None => {
            let empty: Vec<Addon> = Vec::new();
            assert(addon_views(empty@) =~= Seq::empty());
            return Ok(empty);
        },
    };
    proof {
        array_view(*items);
    }
    let mut addons: Vec<Addon> = Vec::new();
    let mut i: usize = 0;
    while i < items.len()
        invariant
            i <= items.len(),
            addons@.len() == i,
            document is Some,
            document->0@ == JsonView::Array(views(items@)),
            forall|j: int| 0 <= j < i ==> addon_in(views(items@)[j]) == Some(addons@[j]@),
        decreases items.len() - i,
    {
        match addon_from_json(&items[i]) {
            Some(addon) => {
                addons.push(addon);
            },
            None => {
                assert(addon_in(views(items@)[i as int]) is None);
                return Err(Failure::MalformedRegistry);
            },
        }
        i += 1;
    }
    assert(addon_views(addons@) =~= addons_in(views(items@))->0);
    Ok(addons)
}

} // verus!
