//! How the polling item of a URL source is to look.

use vstd::prelude::*;

verus! {

/// A tag on an item: a name and a value.
#[derive(PartialEq, Clone, Debug)]
pub struct ZabbixHostTag {
    pub tag: String,
    pub value: String,
}

/// `ZabbixHostTag` as characters.
pub struct ZabbixHostTagView {
    pub tag: Seq<char>,
    pub value: Seq<char>,
}

impl DeepView for ZabbixHostTag {
    type V = ZabbixHostTagView;

    open spec fn deep_view(&self) -> ZabbixHostTagView {
        ZabbixHostTagView { tag: self.tag@, value: self.value@ }
    }
}

/// The item's settings. In both templates `{}` stands for the URL.
#[derive(PartialEq, Clone, Debug)]
pub struct ZabbixItemConfig {
    pub name_template: String,
    pub key_template: String,
    pub interface_id: String,
    pub delay: String,
    /// The server's number for the kind of item (7: active agent check).
    pub item_type: u8,
    pub value_type: u8,
    pub tags: Vec<ZabbixHostTag>,
}

/// `ZabbixItemConfig` as characters.
pub struct ZabbixItemConfigView {
    pub name_template: Seq<char>,
    pub key_template: Seq<char>,
    pub interface_id: Seq<char>,
    pub delay: Seq<char>,
    pub item_type: u8,
    pub value_type: u8,
    pub tags: Seq<ZabbixHostTagView>,
}

impl DeepView for ZabbixItemConfig {
    type V = ZabbixItemConfigView;

    open spec fn deep_view(&self) -> ZabbixItemConfigView {
        ZabbixItemConfigView {
            name_template: self.name_template@,
            key_template: self.key_template@,
            interface_id: self.interface_id@,
            delay: self.delay@,
            item_type: self.item_type,
            value_type: self.value_type,
            tags: self.tags.deep_view(),
        }
    }
}

/// The tags of an item whose configuration names none.
pub fn get_empty_tag_vec() -> (tags: Vec<ZabbixHostTag>)
    ensures
        tags.deep_view() == Seq::<ZabbixHostTagView>::empty(),
{
    let tags: Vec<ZabbixHostTag> = Vec::new();
    assert(tags.deep_view() =~= Seq::<ZabbixHostTagView>::empty());
    tags
}

/// A copy of `tags`.
pub fn copy_tags(tags: &Vec<ZabbixHostTag>) -> (out: Vec<ZabbixHostTag>)
    ensures
        out.deep_view() == tags.deep_view(),
{
    let mut out: Vec<ZabbixHostTag> = Vec::new();
    let mut i: usize = 0;
    while i < tags.len()
        invariant
            i <= tags.len(),
            out.deep_view() == tags.deep_view().take(i as int),
        decreases tags.len() - i,
    {
        let ghost before = out.deep_view();
        out.push(ZabbixHostTag { tag: tags[i].tag.clone(), value: tags[i].value.clone() });
        assert(out.deep_view() =~= before.push(tags[i as int].deep_view()));
        assert(tags.deep_view().take(i + 1) =~= before.push(tags[i as int].deep_view()));
        i = i + 1;
    }
    assert(tags.deep_view().take(tags.len() as int) =~= tags.deep_view());
    out
}

} // verus!
