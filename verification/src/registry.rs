//! The tools that the server answers to, by name.
use vstd::prelude::*;
use crate::tools::schema::ToolInfo;
use crate::tools::{info_of, tool_info_spec, tool_name_spec, ToolKind};

verus! {

/// The tool that `name` finds in a list of entries: the first entry with that
/// name.
pub open spec fn find_tool(entries: Seq<(Seq<char>, ToolKind)>, name: Seq<char>) -> Option<ToolKind>
    decreases entries.len(),
{
    if entries.len() == 0 {
        None
    } else if entries[0].0 == name {
        Some(entries[0].1)
    } else {
        find_tool(entries.drop_first(), name)
    }
}

/// The map that a list of entries stands for.
pub open spec fn entries_map(entries: Seq<(Seq<char>, ToolKind)>) -> Map<Seq<char>, ToolKind> {
    Map::new(
        |name: Seq<char>| find_tool(entries, name) is Some,
        |name: Seq<char>| find_tool(entries, name)->Some_0,
    )
}

pub open spec fn unique_names(entries: Seq<(Seq<char>, ToolKind)>) -> bool {
    forall|i: int, j: int|
        0 <= i < entries.len() && 0 <= j < entries.len() && i != j ==> entries[i].0
            != entries[j].0
}

proof fn lemma_find_absent(entries: Seq<(Seq<char>, ToolKind)>, name: Seq<char>)
    requires
        forall|i: int| 0 <= i < entries.len() ==> entries[i].0 != name,
    ensures
        find_tool(entries, name) is None,
    decreases entries.len(),
{
    if entries.len() > 0 {
        lemma_find_absent(entries.drop_first(), name);
    }
}

proof fn lemma_find_at(entries: Seq<(Seq<char>, ToolKind)>, i: int)
    requires
        0 <= i < entries.len(),
        forall|j: int| 0 <= j < i ==> entries[j].0 != entries[i].0,
    ensures
        find_tool(entries, entries[i].0) == Some(entries[i].1),
    decreases i,
{
    if i > 0 {
        lemma_find_at(entries.drop_first(), i - 1);
    }
}

proof fn lemma_find_push(
    entries: Seq<(Seq<char>, ToolKind)>,
    name: Seq<char>,
    kind: ToolKind,
    other: Seq<char>,
)
    requires
        find_tool(entries, name) is None,
    ensures
        find_tool(entries.push((name, kind)), other) == if other == name {
            Some(kind)
        } else {
            find_tool(entries, other)
        },
    decreases entries.len(),
{
    if entries.len() == 0 {
        assert(entries.push((name, kind)).drop_first() =~= Seq::<(Seq<char>, ToolKind)>::empty());
    } else {
        assert(entries.push((name, kind)).drop_first() =~= entries.drop_first().push((name, kind)));
        if entries[0].0 != other {
            lemma_find_push(entries.drop_first(), name, kind, other);
        }
    }
}

proof fn lemma_find_update(
    entries: Seq<(Seq<char>, ToolKind)>,
    i: int,
    kind: ToolKind,
    other: Seq<char>,
)
    requires
        0 <= i < entries.len(),
        forall|j: int| 0 <= j < i ==> entries[j].0 != entries[i].0,
    ensures
        find_tool(entries.update(i, (entries[i].0, kind)), other) == if other == entries[i].0 {
            Some(kind)
        } else {
            find_tool(entries, other)
        },
    decreases i,
{
    let name = entries[i].0;
    let updated = entries.update(i, (name, kind));
    if i == 0 {
        assert(updated.drop_first() =~= entries.drop_first());
    } else {
        assert(updated.drop_first() =~= entries.drop_first().update(i - 1, (name, kind)));
        if entries[0].0 != other {
            lemma_find_update(entries.drop_first(), i - 1, kind, other);
        }
    }
}

pub open spec fn list_of(v: Seq<(String, ToolKind)>) -> Seq<(Seq<char>, ToolKind)> {
    Seq::new(v.len(), |i: int| (v[i].0@, v[i].1))
}

/// Tools by name, in the order in which they were first added. No name
/// occurs twice.
pub struct ToolRegistry {
    entries: Vec<(String, ToolKind)>,
}

impl ToolRegistry {
    /// The names and tools, in order.
    pub closed spec fn entry_list(&self) -> Seq<(Seq<char>, ToolKind)> {
        list_of(self.entries@)
    }

    #[verifier::type_invariant]
    spec fn names_are_unique(&self) -> bool {
        unique_names(self.entry_list())
    }

    pub fn new() -> (r: ToolRegistry)
        ensures
            r.entry_list() == Seq::<(Seq<char>, ToolKind)>::empty(),
            r@ == Map::<Seq<char>, ToolKind>::empty(),
    {
        let r = ToolRegistry { entries: Vec::new() };
        assert(r.entry_list() =~= Seq::<(Seq<char>, ToolKind)>::empty());
        assert(r@ =~= Map::<Seq<char>, ToolKind>::empty());
        r
    }

    /// Adds a tool under a name, replacing the tool that the name had.
    pub fn insert(&mut self, name: String, kind: ToolKind)
        ensures
            final(self)@ == old(self)@.insert(name@, kind),
            old(self)@.contains_key(name@) ==> final(self).entry_list() == old(
                self,
            ).entry_list().map_values(
                |e: (Seq<char>, ToolKind)|
                    if e.0 == name@ {
                        (name@, kind)
                    } else {
                        e
                    },
            ),
            !old(self)@.contains_key(name@) ==> final(self).entry_list() == old(
                self,
            ).entry_list().push((name@, kind)),
    {
        proof {
            use_type_invariant(&*self);
        }
        let ghost before = self.entry_list();
        let mut i: usize = 0;
        while i < self.entries.len()
            invariant
                0 <= i <= self.entries.len(),
                before == self.entry_list(),
                before == old(self).entry_list(),
                unique_names(before),
                forall|j: int| 0 <= j < i ==> before[j].0 != name@,
            decreases self.entries.len() - i,
        {
            if self.entries[i].0 == name {
                proof {
                    lemma_find_at(before, i as int);
                    assert forall|other: Seq<char>| #[trigger]
                        find_tool(before.update(i as int, (name@, kind)), other) == if other
                            == name@ {
                            Some(kind)
                        } else {
                            find_tool(before, other)
                        } by {
                        lemma_find_update(before, i as int, kind, other);
                    }
                }
                let mut entries: Vec<(String, ToolKind)> = Vec::new();
                std::mem::swap(&mut entries, &mut self.entries);
                assert(list_of(entries@) == before);
                entries.set(i, (name, kind));
                proof {
                    assert(list_of(entries@) =~= before.update(i as int, (name@, kind)));
                    assert(unique_names(list_of(entries@))) by {
                        assert forall|a: int, b: int|
                            0 <= a < list_of(entries@).len() && 0 <= b < list_of(entries@).len() && a
                                != b implies list_of(entries@)[a].0 != list_of(entries@)[b].0 by {
                            assert(list_of(entries@)[a].0 == before[a].0);
                            assert(list_of(entries@)[b].0 == before[b].0);
                        }
                    }
                }
                self.entries = entries;
                proof {
                    assert(self.entry_list() =~= before.update(i as int, (name@, kind)));
                    assert(self@ =~= entries_map(before).insert(name@, kind));
                    assert(self.entry_list() =~= before.map_values(
                        |e: (Seq<char>, ToolKind)|
                            if e.0 == name@ {
                                (name@, kind)
                            } else {
                                e
                            },
                    ));
                }
                return ;
            }
            i = i + 1;
        }
        proof {
            lemma_find_absent(before, name@);
            assert forall|other: Seq<char>| #[trigger]
                find_tool(before.push((name@, kind)), other) == if other == name@ {
                    Some(kind)
                } else {
                    find_tool(before, other)
                } by {
                lemma_find_push(before, name@, kind, other);
            }
        }
        let mut entries: Vec<(String, ToolKind)> = Vec::new();
        std::mem::swap(&mut entries, &mut self.entries);
        assert(list_of(entries@) == before);
        entries.push((name, kind));
        proof {
            assert(list_of(entries@) =~= before.push((name@, kind)));
            assert(unique_names(list_of(entries@))) by {
                assert forall|a: int, b: int|
                    0 <= a < list_of(entries@).len() && 0 <= b < list_of(entries@).len() && a
                        != b implies list_of(entries@)[a].0 != list_of(entries@)[b].0 by {
                    if a < before.len() {
                        assert(list_of(entries@)[a] == before[a]);
                    }
                    if b < before.len() {
                        assert(list_of(entries@)[b] == before[b]);
                    }
                }
            }
        }
        self.entries = entries;
        proof {
            assert(self.entry_list() =~= before.push((name@, kind)));
            assert(self@ =~= entries_map(before).insert(name@, kind));
        }
    }

    /// The tool that a name stands for.
    pub fn get(&self, name: &str) -> (r: Option<ToolKind>)
        ensures
            r == find_tool(self.entry_list(), name@),
            r is Some <==> self@.contains_key(name@),
            r is Some ==> r->Some_0 == self@[name@],
    {
        let ghost list = self.entry_list();
        let key = String::from_str(name);
        let mut i: usize = 0;
        assert(list.subrange(0, list.len() as int) =~= list);
        while i < self.entries.len()
            invariant
                0 <= i <= self.entries.len(),
                list == self.entry_list(),
                key@ == name@,
                find_tool(list, name@) == find_tool(list.subrange(i as int, list.len() as int), name@),
            decreases self.entries.len() - i,
        {
            assert(list.subrange(i as int, list.len() as int).drop_first() =~= list.subrange(
                i + 1,
                list.len() as int,
            ));
            assert(list.subrange(i as int, list.len() as int)[0] == list[i as int]);
            if self.entries[i].0 == key {
                return Some(self.entries[i].1);
            }
            i = i + 1;
        }
        None
    }

    /// The tools, in order.
    pub fn kinds(&self) -> (r: Vec<ToolKind>)
        ensures
            r@ == self.entry_list().map_values(|e: (Seq<char>, ToolKind)| e.1),
    {
        let mut out: Vec<ToolKind> = Vec::new();
        let mut i: usize = 0;
        while i < self.entries.len()
            invariant
                0 <= i <= self.entries.len(),
                out@ == self.entry_list().take(i as int).map_values(|e: (Seq<char>, ToolKind)| e.1),
            decreases self.entries.len() - i,
        {
            out.push(self.entries[i].1);
            i = i + 1;
            assert(out@ =~= self.entry_list().take(i as int).map_values(
                |e: (Seq<char>, ToolKind)| e.1,
            ));
        }
        assert(self.entry_list().take(i as int) =~= self.entry_list());
        out
    }
}

impl View for ToolRegistry {
    type V = Map<Seq<char>, ToolKind>;

    open spec fn view(&self) -> Map<Seq<char>, ToolKind> {
        entries_map(self.entry_list())
    }
}

/// A name, once a tool has been added under it, finds that tool; every other
/// name finds what it found before.
pub proof fn law_get_after_insert(before: Map<Seq<char>, ToolKind>, name: Seq<char>, kind: ToolKind, other: Seq<char>)
    ensures
        before.insert(name, kind).contains_key(name),
        before.insert(name, kind)[name] == kind,
        other != name ==> (before.insert(name, kind).contains_key(other) == before.contains_key(other)),
        other != name && before.contains_key(other) ==> before.insert(name, kind)[other] == before[other],
{
}

/// The tools that the server offers, in the order in which it registers them.
pub open spec fn registered_kinds_spec() -> Seq<ToolKind> {
    seq![
        ToolKind::GetMe,
        ToolKind::UpdateProfile,
        ToolKind::SetProfilePhoto,
        ToolKind::GetBotInfo,
        ToolKind::ListInlineButtons,
        ToolKind::PressInlineButton,
        ToolKind::ListChats,
        ToolKind::GetChatInfo,
        ToolKind::CreateGroup,
        ToolKind::CreateChannel,
        ToolKind::LeaveChat,
        ToolKind::SetChatMuted,
        ToolKind::SetChatArchived,
        ToolKind::GetMessages,
        ToolKind::GetHistory,
        ToolKind::SearchMessages,
        ToolKind::SendMessage,
        ToolKind::EditMessage,
        ToolKind::DeleteMessages,
        ToolKind::ForwardMessages,
        ToolKind::SendReaction,
        ToolKind::GetScheduledMessages,
        ToolKind::SaveDraft,
        ToolKind::ClearDrafts,
        ToolKind::BanUser,
        ToolKind::PromoteAdmin,
        ToolKind::GetParticipants,
        ToolKind::InviteUsers,
        ToolKind::SendFile,
        ToolKind::SendAlbum,
        ToolKind::DownloadMedia,
        ToolKind::ListFolders,
        ToolKind::GetFolder,
        ToolKind::ListContacts,
        ToolKind::SearchContacts,
        ToolKind::AddContact,
        ToolKind::DeleteContact,
        ToolKind::BlockUser,
        ToolKind::UnblockUser,
        ToolKind::CreateFolder,
        ToolKind::DeleteFolder,
        ToolKind::AddChatToFolder,
        ToolKind::RemoveChatFromFolder,
        ToolKind::ReorderFolders,
        ToolKind::DemoteAdmin,
        ToolKind::EditAdminRights,
        ToolKind::SetDefaultChatPermissions,
        ToolKind::ToggleSlowMode,
        ToolKind::GetAdmins,
        ToolKind::GetBannedUsers,
        ToolKind::GetRecentActions,
        ToolKind::UnbanUser,
        ToolKind::GetInviteLink,
        ToolKind::ExportChatInvite,
        ToolKind::ImportChatInvite,
        ToolKind::JoinChatByLink,
        ToolKind::EditChatAbout,
        ToolKind::EditChatPhoto,
        ToolKind::EditChatTitle,
        ToolKind::DeleteChatPhoto,
        ToolKind::CreatePoll,
        ToolKind::GetMessageContext,
        ToolKind::GetMessageLink,
        ToolKind::GetMessageReactions,
        ToolKind::GetMessageReadBy,
        ToolKind::GetPinnedMessages,
        ToolKind::UnpinMessage,
        ToolKind::UnpinAllMessages,
        ToolKind::DeleteScheduledMessage,
        ToolKind::RemoveReaction,
        ToolKind::DeleteChatHistory,
        ToolKind::SendContact,
        ToolKind::SendGif,
        ToolKind::SendSticker,
        ToolKind::SendVoice,
        ToolKind::GetGifSearch,
        ToolKind::GetMediaInfo,
        ToolKind::GetStickerSets,
        ToolKind::GetUserPhotos,
        ToolKind::DeleteProfilePhoto,
        ToolKind::GetUserStatus,
        ToolKind::SetBotCommands,
        ToolKind::GetBlockedUsers,
        ToolKind::ImportContacts,
        ToolKind::ExportContacts,
        ToolKind::PinMessage,
        ToolKind::MarkAsRead,
        ToolKind::GetDrafts,
        ToolKind::ResolveUsername,
        ToolKind::GetContactIds,
        ToolKind::GetDirectChatByContact,
        ToolKind::GetContactChats,
        ToolKind::GetLastInteraction,
        ToolKind::ListAccounts,
        ToolKind::WaitForNewMessage,
        ToolKind::WaitForSettledMessage
    ]
}

/// The map that adding these tools in order, each under its own name, builds.
pub open spec fn registry_map(kinds: Seq<ToolKind>) -> Map<Seq<char>, ToolKind>
    decreases kinds.len(),
{
    if kinds.len() == 0 {
        Map::empty()
    } else {
        registry_map(kinds.drop_last()).insert(tool_name_spec(kinds.last()), kinds.last())
    }
}

fn registered_kinds() -> (r: Vec<ToolKind>)
    ensures
        r@ == registered_kinds_spec(),
{
    let r: Vec<ToolKind> = vec![
        ToolKind::GetMe,
        ToolKind::UpdateProfile,
        ToolKind::SetProfilePhoto,
        ToolKind::GetBotInfo,
        ToolKind::ListInlineButtons,
        ToolKind::PressInlineButton,
        ToolKind::ListChats,
        ToolKind::GetChatInfo,
        ToolKind::CreateGroup,
        ToolKind::CreateChannel,
        ToolKind::LeaveChat,
        ToolKind::SetChatMuted,
        ToolKind::SetChatArchived,
        ToolKind::GetMessages,
        ToolKind::GetHistory,
        ToolKind::SearchMessages,
        ToolKind::SendMessage,
        ToolKind::EditMessage,
        ToolKind::DeleteMessages,
        ToolKind::ForwardMessages,
        ToolKind::SendReaction,
        ToolKind::GetScheduledMessages,
        ToolKind::SaveDraft,
        ToolKind::ClearDrafts,
        ToolKind::BanUser,
        ToolKind::PromoteAdmin,
        ToolKind::GetParticipants,
        ToolKind::InviteUsers,
        ToolKind::SendFile,
        ToolKind::SendAlbum,
        ToolKind::DownloadMedia,
        ToolKind::ListFolders,
        ToolKind::GetFolder,
        ToolKind::ListContacts,
        ToolKind::SearchContacts,
        ToolKind::AddContact,
        ToolKind::DeleteContact,
        ToolKind::BlockUser,
        ToolKind::UnblockUser,
        ToolKind::CreateFolder,
        ToolKind::DeleteFolder,
        ToolKind::AddChatToFolder,
        ToolKind::RemoveChatFromFolder,
        ToolKind::ReorderFolders,
        ToolKind::DemoteAdmin,
        ToolKind::EditAdminRights,
        ToolKind::SetDefaultChatPermissions,
        ToolKind::ToggleSlowMode,
        ToolKind::GetAdmins,
        ToolKind::GetBannedUsers,
        ToolKind::GetRecentActions,
        ToolKind::UnbanUser,
        ToolKind::GetInviteLink,
        ToolKind::ExportChatInvite,
        ToolKind::ImportChatInvite,
        ToolKind::JoinChatByLink,
        ToolKind::EditChatAbout,
        ToolKind::EditChatPhoto,
        ToolKind::EditChatTitle,
        ToolKind::DeleteChatPhoto,
        ToolKind::CreatePoll,
        ToolKind::GetMessageContext,
        ToolKind::GetMessageLink,
        ToolKind::GetMessageReactions,
        ToolKind::GetMessageReadBy,
        ToolKind::GetPinnedMessages,
        ToolKind::UnpinMessage,
        ToolKind::UnpinAllMessages,
        ToolKind::DeleteScheduledMessage,
        ToolKind::RemoveReaction,
        ToolKind::DeleteChatHistory,
        ToolKind::SendContact,
        ToolKind::SendGif,
        ToolKind::SendSticker,
        ToolKind::SendVoice,
        ToolKind::GetGifSearch,
        ToolKind::GetMediaInfo,
        ToolKind::GetStickerSets,
        ToolKind::GetUserPhotos,
        ToolKind::DeleteProfilePhoto,
        ToolKind::GetUserStatus,
        ToolKind::SetBotCommands,
        ToolKind::GetBlockedUsers,
        ToolKind::ImportContacts,
        ToolKind::ExportContacts,
        ToolKind::PinMessage,
        ToolKind::MarkAsRead,
        ToolKind::GetDrafts,
        ToolKind::ResolveUsername,
        ToolKind::GetContactIds,
        ToolKind::GetDirectChatByContact,
        ToolKind::GetContactChats,
        ToolKind::GetLastInteraction,
        ToolKind::ListAccounts,
        ToolKind::WaitForNewMessage,
        ToolKind::WaitForSettledMessage
    ];
    assert(r@ =~= registered_kinds_spec());
    r
}

/// A registry of every tool that the server offers, each under the name that
/// its description gives.
pub fn register_all_tools() -> (r: ToolRegistry)
    ensures
        r@ == registry_map(registered_kinds_spec()),
{
    let kinds = registered_kinds();
    let mut registry = ToolRegistry::new();
    let mut i: usize = 0;
    while i < kinds.len()
        invariant
            0 <= i <= kinds.len(),
            kinds@ == registered_kinds_spec(),
            registry@ == registry_map(kinds@.take(i as int)),
        decreases kinds.len() - i,
    {
        assert(kinds@.take(i + 1).drop_last() =~= kinds@.take(i as int));
        let info: ToolInfo = info_of(kinds[i]);
        registry.insert(info.name, kinds[i]);
        i = i + 1;
    }
    assert(kinds@.take(i as int) =~= kinds@);
    registry
}

proof fn lemma_registry_map(kinds: Seq<ToolKind>, name: Seq<char>)
    ensures
        registry_map(kinds).contains_key(name) ==> tool_name_spec(registry_map(kinds)[name]) == name,
        registry_map(kinds).contains_key(name) <==> exists|i: int|
            0 <= i < kinds.len() && #[trigger] tool_name_spec(kinds[i]) == name,
    decreases kinds.len(),
{
    if kinds.len() > 0 {
        let rest = kinds.drop_last();
        lemma_registry_map(rest, name);
        if registry_map(kinds).contains_key(name) && tool_name_spec(kinds.last()) != name {
            let i = choose|i: int| 0 <= i < rest.len() && #[trigger] tool_name_spec(rest[i]) == name;
            assert(kinds[i] == rest[i]);
        }
        if exists|i: int| 0 <= i < kinds.len() && #[trigger] tool_name_spec(kinds[i]) == name {
            let i = choose|i: int| 0 <= i < kinds.len() && #[trigger] tool_name_spec(kinds[i]) == name;
            if i < kinds.len() - 1 {
                assert(rest[i] == kinds[i]);
            }
        }
    }
}

/// Every tool that the server registers can be found by its name, and a name
/// finds only a tool with that name.
pub proof fn law_registered_tools_found(k: ToolKind, name: Seq<char>)
    ensures
        registered_kinds_spec().contains(k) ==> registry_map(registered_kinds_spec()).contains_key(
            tool_name_spec(k),
        ),
        registry_map(registered_kinds_spec()).contains_key(name) ==> tool_name_spec(
            registry_map(registered_kinds_spec())[name],
        ) == name,
{
    lemma_registry_map(registered_kinds_spec(), name);
    lemma_registry_map(registered_kinds_spec(), tool_name_spec(k));
    if registered_kinds_spec().contains(k) {
        let i = choose|i: int| 0 <= i < registered_kinds_spec().len() && registered_kinds_spec()[i] == k;
        assert(tool_name_spec(registered_kinds_spec()[i]) == tool_name_spec(k));
    }
}

} // verus!
