use vstd::prelude::*;

verus! {

/// The operations that a client can ask for, one per command type.
#[derive(Clone, Copy, Debug, PartialEq, Eq, Hash, Structural)]
pub enum UserOperation {
    Login,
    Register,
    GetCaptcha,
    GetUserDetails,
    GetReplies,
    AddAdmin,
    BanUser,
    GetUserMentions,
    MarkUserMentionAsRead,
    MarkAllAsRead,
    DeleteAccount,
    PasswordReset,
    PasswordChange,
    UserJoin,
    PostJoin,
    CommunityJoin,
    SaveUserSettings,
    CreatePrivateMessage,
    EditPrivateMessage,
    DeletePrivateMessage,
    MarkPrivateMessageAsRead,
    GetPrivateMessages,
    GetModlog,
    CreateSite,
    EditSite,
    GetSite,
    GetSiteConfig,
    SaveSiteConfig,
    Search,
    TransferCommunity,
    TransferSite,
    ListCategories,
    GetCommunity,
    ListCommunities,
    CreateCommunity,
    EditCommunity,
    DeleteCommunity,
    RemoveCommunity,
    FollowCommunity,
    GetFollowedCommunities,
    BanFromCommunity,
    AddModToCommunity,
    CreatePost,
    GetPost,
    GetPosts,
    EditPost,
    DeletePost,
    RemovePost,
    LockPost,
    StickyPost,
    CreatePostLike,
    SavePost,
    CreateComment,
    EditComment,
    DeleteComment,
    RemoveComment,
    MarkCommentAsRead,
    SaveComment,
    GetComments,
    CreateCommentLike,
}

/// How many operations there are.
pub const OP_COUNT: usize = 60;

/// The name of an operation on the wire.
pub open spec fn op_name(op: UserOperation) -> Seq<char> {
    match op {
        UserOperation::Login => "Login"@,
        UserOperation::Register => "Register"@,
        UserOperation::GetCaptcha => "GetCaptcha"@,
        UserOperation::GetUserDetails => "GetUserDetails"@,
        UserOperation::GetReplies => "GetReplies"@,
        UserOperation::AddAdmin => "AddAdmin"@,
        UserOperation::BanUser => "BanUser"@,
        UserOperation::GetUserMentions => "GetUserMentions"@,
        UserOperation::MarkUserMentionAsRead => "MarkUserMentionAsRead"@,
        UserOperation::MarkAllAsRead => "MarkAllAsRead"@,
        UserOperation::DeleteAccount => "DeleteAccount"@,
        UserOperation::PasswordReset => "PasswordReset"@,
        UserOperation::PasswordChange => "PasswordChange"@,
        UserOperation::UserJoin => "UserJoin"@,
        UserOperation::PostJoin => "PostJoin"@,
        UserOperation::CommunityJoin => "CommunityJoin"@,
        UserOperation::SaveUserSettings => "SaveUserSettings"@,
        UserOperation::CreatePrivateMessage => "CreatePrivateMessage"@,
        UserOperation::EditPrivateMessage => "EditPrivateMessage"@,
        UserOperation::DeletePrivateMessage => "DeletePrivateMessage"@,
        UserOperation::MarkPrivateMessageAsRead => "MarkPrivateMessageAsRead"@,
        UserOperation::GetPrivateMessages => "GetPrivateMessages"@,
        UserOperation::GetModlog => "GetModlog"@,
        UserOperation::CreateSite => "CreateSite"@,
        UserOperation::EditSite => "EditSite"@,
        UserOperation::GetSite => "GetSite"@,
        UserOperation::GetSiteConfig => "GetSiteConfig"@,
        UserOperation::SaveSiteConfig => "SaveSiteConfig"@,
        UserOperation::Search => "Search"@,
        UserOperation::TransferCommunity => "TransferCommunity"@,
        UserOperation::TransferSite => "TransferSite"@,
        UserOperation::ListCategories => "ListCategories"@,
        UserOperation::GetCommunity => "GetCommunity"@,
        UserOperation::ListCommunities => "ListCommunities"@,
        UserOperation::CreateCommunity => "CreateCommunity"@,
        UserOperation::EditCommunity => "EditCommunity"@,
        UserOperation::DeleteCommunity => "DeleteCommunity"@,
        UserOperation::RemoveCommunity => "RemoveCommunity"@,
        UserOperation::FollowCommunity => "FollowCommunity"@,
        UserOperation::GetFollowedCommunities => "GetFollowedCommunities"@,
        UserOperation::BanFromCommunity => "BanFromCommunity"@,
        UserOperation::AddModToCommunity => "AddModToCommunity"@,
        UserOperation::CreatePost => "CreatePost"@,
        UserOperation::GetPost => "GetPost"@,
        UserOperation::GetPosts => "GetPosts"@,
        UserOperation::EditPost => "EditPost"@,
        UserOperation::DeletePost => "DeletePost"@,
        UserOperation::RemovePost => "RemovePost"@,
        UserOperation::LockPost => "LockPost"@,
        UserOperation::StickyPost => "StickyPost"@,
        UserOperation::CreatePostLike => "CreatePostLike"@,
        UserOperation::SavePost => "SavePost"@,
        UserOperation::CreateComment => "CreateComment"@,
        UserOperation::EditComment => "EditComment"@,
        UserOperation::DeleteComment => "DeleteComment"@,
        UserOperation::RemoveComment => "RemoveComment"@,
        UserOperation::MarkCommentAsRead => "MarkCommentAsRead"@,
        UserOperation::SaveComment => "SaveComment"@,
        UserOperation::GetComments => "GetComments"@,
        UserOperation::CreateCommentLike => "CreateCommentLike"@,
    }
}

/// The place of an operation in the registry's table.
pub open spec fn op_index(op: UserOperation) -> int {
    match op {
        UserOperation::Login => 0,
        UserOperation::Register => 1,
        UserOperation::GetCaptcha => 2,
        UserOperation::GetUserDetails => 3,
        UserOperation::GetReplies => 4,
        UserOperation::AddAdmin => 5,
        UserOperation::BanUser => 6,
        UserOperation::GetUserMentions => 7,
        UserOperation::MarkUserMentionAsRead => 8,
        UserOperation::MarkAllAsRead => 9,
        UserOperation::DeleteAccount => 10,
        UserOperation::PasswordReset => 11,
        UserOperation::PasswordChange => 12,
        UserOperation::UserJoin => 13,
        UserOperation::PostJoin => 14,
        UserOperation::CommunityJoin => 15,
        UserOperation::SaveUserSettings => 16,
        UserOperation::CreatePrivateMessage => 17,
        UserOperation::EditPrivateMessage => 18,
        UserOperation::DeletePrivateMessage => 19,
        UserOperation::MarkPrivateMessageAsRead => 20,
        UserOperation::GetPrivateMessages => 21,
        UserOperation::GetModlog => 22,
        UserOperation::CreateSite => 23,
        UserOperation::EditSite => 24,
        UserOperation::GetSite => 25,
        UserOperation::GetSiteConfig => 26,
        UserOperation::SaveSiteConfig => 27,
        UserOperation::Search => 28,
        UserOperation::TransferCommunity => 29,
        UserOperation::TransferSite => 30,
        UserOperation::ListCategories => 31,
        UserOperation::GetCommunity => 32,
        UserOperation::ListCommunities => 33,
        UserOperation::CreateCommunity => 34,
        UserOperation::EditCommunity => 35,
        UserOperation::DeleteCommunity => 36,
        UserOperation::RemoveCommunity => 37,
        UserOperation::FollowCommunity => 38,
        UserOperation::GetFollowedCommunities => 39,
        UserOperation::BanFromCommunity => 40,
        UserOperation::AddModToCommunity => 41,
        UserOperation::CreatePost => 42,
        UserOperation::GetPost => 43,
        UserOperation::GetPosts => 44,
        UserOperation::EditPost => 45,
        UserOperation::DeletePost => 46,
        UserOperation::RemovePost => 47,
        UserOperation::LockPost => 48,
        UserOperation::StickyPost => 49,
        UserOperation::CreatePostLike => 50,
        UserOperation::SavePost => 51,
        UserOperation::CreateComment => 52,
        UserOperation::EditComment => 53,
        UserOperation::DeleteComment => 54,
        UserOperation::RemoveComment => 55,
        UserOperation::MarkCommentAsRead => 56,
        UserOperation::SaveComment => 57,
        UserOperation::GetComments => 58,
        UserOperation::CreateCommentLike => 59,
    }
}

/// The operation that a wire name stands for, if any.
pub open spec fn op_of_name(s: Seq<char>) -> Option<UserOperation> {
    if exists|op: UserOperation| op_name(op) == s {
        Some(choose|op: UserOperation| op_name(op) == s)
    } else {
        None
    }
}

/// Every name is at least five characters long, and these three facts
/// of it tell all the names apart.
spec fn name_key(s: Seq<char>) -> (int, char, char) {
    (s.len() as int, s[3], s[s.len() - 4])
}

/// Distinct operations have distinct names.
pub proof fn lemma_op_name_injective(a: UserOperation, b: UserOperation)
    requires
        op_name(a) == op_name(b),
    ensures
        a == b,
{
    reveal_strlit("Login");
    reveal_strlit("Register");
    reveal_strlit("GetCaptcha");
    reveal_strlit("GetUserDetails");
    reveal_strlit("GetReplies");
    reveal_strlit("AddAdmin");
    reveal_strlit("BanUser");
    reveal_strlit("GetUserMentions");
    reveal_strlit("MarkUserMentionAsRead");
    reveal_strlit("MarkAllAsRead");
    reveal_strlit("DeleteAccount");
    reveal_strlit("PasswordReset");
    reveal_strlit("PasswordChange");
    reveal_strlit("UserJoin");
    reveal_strlit("PostJoin");
    reveal_strlit("CommunityJoin");
    reveal_strlit("SaveUserSettings");
    reveal_strlit("CreatePrivateMessage");
    reveal_strlit("EditPrivateMessage");
    reveal_strlit("DeletePrivateMessage");
    reveal_strlit("MarkPrivateMessageAsRead");
    reveal_strlit("GetPrivateMessages");
    reveal_strlit("GetModlog");
    reveal_strlit("CreateSite");
    reveal_strlit("EditSite");
    reveal_strlit("GetSite");
    reveal_strlit("GetSiteConfig");
    reveal_strlit("SaveSiteConfig");
    reveal_strlit("Search");
    reveal_strlit("TransferCommunity");
    reveal_strlit("TransferSite");
    reveal_strlit("ListCategories");
    reveal_strlit("GetCommunity");
    reveal_strlit("ListCommunities");
    reveal_strlit("CreateCommunity");
    reveal_strlit("EditCommunity");
    reveal_strlit("DeleteCommunity");
    reveal_strlit("RemoveCommunity");
    reveal_strlit("FollowCommunity");
    reveal_strlit("GetFollowedCommunities");
    reveal_strlit("BanFromCommunity");
    reveal_strlit("AddModToCommunity");
    reveal_strlit("CreatePost");
    reveal_strlit("GetPost");
    reveal_strlit("GetPosts");
    reveal_strlit("EditPost");
    reveal_strlit("DeletePost");
    reveal_strlit("RemovePost");
    reveal_strlit("LockPost");
    reveal_strlit("StickyPost");
    reveal_strlit("CreatePostLike");
    reveal_strlit("SavePost");
    reveal_strlit("CreateComment");
    reveal_strlit("EditComment");
    reveal_strlit("DeleteComment");
    reveal_strlit("RemoveComment");
    reveal_strlit("MarkCommentAsRead");
    reveal_strlit("SaveComment");
    reveal_strlit("GetComments");
    reveal_strlit("CreateCommentLike");
    assert(name_key(op_name(a)) == name_key(op_name(b)));
}

/// A name is never empty and holds no double quote, so it can stand
/// between quotes in a message as it is.
pub proof fn lemma_op_name_plain(op: UserOperation)
    ensures
        op_name(op).len() > 0,
        forall|i: int| 0 <= i < op_name(op).len() ==> op_name(op)[i] != '"',
{
    reveal_strlit("Login");
    reveal_strlit("Register");
    reveal_strlit("GetCaptcha");
    reveal_strlit("GetUserDetails");
    reveal_strlit("GetReplies");
    reveal_strlit("AddAdmin");
    reveal_strlit("BanUser");
    reveal_strlit("GetUserMentions");
    reveal_strlit("MarkUserMentionAsRead");
    reveal_strlit("MarkAllAsRead");
    reveal_strlit("DeleteAccount");
    reveal_strlit("PasswordReset");
    reveal_strlit("PasswordChange");
    reveal_strlit("UserJoin");
    reveal_strlit("PostJoin");
    reveal_strlit("CommunityJoin");
    reveal_strlit("SaveUserSettings");
    reveal_strlit("CreatePrivateMessage");
    reveal_strlit("EditPrivateMessage");
    reveal_strlit("DeletePrivateMessage");
    reveal_strlit("MarkPrivateMessageAsRead");
    reveal_strlit("GetPrivateMessages");
    reveal_strlit("GetModlog");
    reveal_strlit("CreateSite");
    reveal_strlit("EditSite");
    reveal_strlit("GetSite");
    reveal_strlit("GetSiteConfig");
    reveal_strlit("SaveSiteConfig");
    reveal_strlit("Search");
    reveal_strlit("TransferCommunity");
    reveal_strlit("TransferSite");
    reveal_strlit("ListCategories");
    reveal_strlit("GetCommunity");
    reveal_strlit("ListCommunities");
    reveal_strlit("CreateCommunity");
    reveal_strlit("EditCommunity");
    reveal_strlit("DeleteCommunity");
    reveal_strlit("RemoveCommunity");
    reveal_strlit("FollowCommunity");
    reveal_strlit("GetFollowedCommunities");
    reveal_strlit("BanFromCommunity");
    reveal_strlit("AddModToCommunity");
    reveal_strlit("CreatePost");
    reveal_strlit("GetPost");
    reveal_strlit("GetPosts");
    reveal_strlit("EditPost");
    reveal_strlit("DeletePost");
    reveal_strlit("RemovePost");
    reveal_strlit("LockPost");
    reveal_strlit("StickyPost");
    reveal_strlit("CreatePostLike");
    reveal_strlit("SavePost");
    reveal_strlit("CreateComment");
    reveal_strlit("EditComment");
    reveal_strlit("DeleteComment");
    reveal_strlit("RemoveComment");
    reveal_strlit("MarkCommentAsRead");
    reveal_strlit("SaveComment");
    reveal_strlit("GetComments");
    reveal_strlit("CreateCommentLike");
}

/// Each operation has its own place in the table.
pub proof fn lemma_op_index(a: UserOperation, b: UserOperation)
    ensures
        0 <= op_index(a) < OP_COUNT,
        op_index(a) == op_index(b) ==> a == b,
{
}

/// Reading a name back gives the operation it was written from: the
/// table from names to operations is total and one to one.
pub proof fn lemma_name_round_trip(op: UserOperation)
    ensures
        op_of_name(op_name(op)) == Some(op),
{
    let found = choose|o: UserOperation| op_name(o) == op_name(op);
    lemma_op_name_injective(found, op);
}

/// The operation at a place of the table.
pub fn op_at(i: usize) -> (op: UserOperation)
    requires
        i < OP_COUNT,
    ensures
        op_index(op) == i,
{
    match i {
        0 => UserOperation::Login,
        1 => UserOperation::Register,
        2 => UserOperation::GetCaptcha,
        3 => UserOperation::GetUserDetails,
        4 => UserOperation::GetReplies,
        5 => UserOperation::AddAdmin,
        6 => UserOperation::BanUser,
        7 => UserOperation::GetUserMentions,
        8 => UserOperation::MarkUserMentionAsRead,
        9 => UserOperation::MarkAllAsRead,
        10 => UserOperation::DeleteAccount,
        11 => UserOperation::PasswordReset,
        12 => UserOperation::PasswordChange,
        13 => UserOperation::UserJoin,
        14 => UserOperation::PostJoin,
        15 => UserOperation::CommunityJoin,
        16 => UserOperation::SaveUserSettings,
        17 => UserOperation::CreatePrivateMessage,
        18 => UserOperation::EditPrivateMessage,
        19 => UserOperation::DeletePrivateMessage,
        20 => UserOperation::MarkPrivateMessageAsRead,
        21 => UserOperation::GetPrivateMessages,
        22 => UserOperation::GetModlog,
        23 => UserOperation::CreateSite,
        24 => UserOperation::EditSite,
        25 => UserOperation::GetSite,
        26 => UserOperation::GetSiteConfig,
        27 => UserOperation::SaveSiteConfig,
        28 => UserOperation::Search,
        29 => UserOperation::TransferCommunity,
        30 => UserOperation::TransferSite,
        31 => UserOperation::ListCategories,
        32 => UserOperation::GetCommunity,
        33 => UserOperation::ListCommunities,
        34 => UserOperation::CreateCommunity,
        35 => UserOperation::EditCommunity,
        36 => UserOperation::DeleteCommunity,
        37 => UserOperation::RemoveCommunity,
        38 => UserOperation::FollowCommunity,
        39 => UserOperation::GetFollowedCommunities,
        40 => UserOperation::BanFromCommunity,
        41 => UserOperation::AddModToCommunity,
        42 => UserOperation::CreatePost,
        43 => UserOperation::GetPost,
        44 => UserOperation::GetPosts,
        45 => UserOperation::EditPost,
        46 => UserOperation::DeletePost,
        47 => UserOperation::RemovePost,
        48 => UserOperation::LockPost,
        49 => UserOperation::StickyPost,
        50 => UserOperation::CreatePostLike,
        51 => UserOperation::SavePost,
        52 => UserOperation::CreateComment,
        53 => UserOperation::EditComment,
        54 => UserOperation::DeleteComment,
        55 => UserOperation::RemoveComment,
        56 => UserOperation::MarkCommentAsRead,
        57 => UserOperation::SaveComment,
        58 => UserOperation::GetComments,
        _ => UserOperation::CreateCommentLike,
    }
}

impl UserOperation {
    /// The name of the operation on the wire.
    pub fn name(&self) -> (r: &'static str)
        ensures
            r@ == op_name(*self),
    {
        match self {
            UserOperation::Login => "Login",
            UserOperation::Register => "Register",
            UserOperation::GetCaptcha => "GetCaptcha",
            UserOperation::GetUserDetails => "GetUserDetails",
            UserOperation::GetReplies => "GetReplies",
            UserOperation::AddAdmin => "AddAdmin",
            UserOperation::BanUser => "BanUser",
            UserOperation::GetUserMentions => "GetUserMentions",
            UserOperation::MarkUserMentionAsRead => "MarkUserMentionAsRead",
            UserOperation::MarkAllAsRead => "MarkAllAsRead",
            UserOperation::DeleteAccount => "DeleteAccount",
            UserOperation::PasswordReset => "PasswordReset",
            UserOperation::PasswordChange => "PasswordChange",
            UserOperation::UserJoin => "UserJoin",
            UserOperation::PostJoin => "PostJoin",
            UserOperation::CommunityJoin => "CommunityJoin",
            UserOperation::SaveUserSettings => "SaveUserSettings",
            UserOperation::CreatePrivateMessage => "CreatePrivateMessage",
            UserOperation::EditPrivateMessage => "EditPrivateMessage",
            UserOperation::DeletePrivateMessage => "DeletePrivateMessage",
            UserOperation::MarkPrivateMessageAsRead => "MarkPrivateMessageAsRead",
            UserOperation::GetPrivateMessages => "GetPrivateMessages",
            UserOperation::GetModlog => "GetModlog",
            UserOperation::CreateSite => "CreateSite",
            UserOperation::EditSite => "EditSite",
            UserOperation::GetSite => "GetSite",
            UserOperation::GetSiteConfig => "GetSiteConfig",
            UserOperation::SaveSiteConfig => "SaveSiteConfig",
            UserOperation::Search => "Search",
            UserOperation::TransferCommunity => "TransferCommunity",
            UserOperation::TransferSite => "TransferSite",
            UserOperation::ListCategories => "ListCategories",
            UserOperation::GetCommunity => "GetCommunity",
            UserOperation::ListCommunities => "ListCommunities",
            UserOperation::CreateCommunity => "CreateCommunity",
            UserOperation::EditCommunity => "EditCommunity",
            UserOperation::DeleteCommunity => "DeleteCommunity",
            UserOperation::RemoveCommunity => "RemoveCommunity",
            UserOperation::FollowCommunity => "FollowCommunity",
            UserOperation::GetFollowedCommunities => "GetFollowedCommunities",
            UserOperation::BanFromCommunity => "BanFromCommunity",
            UserOperation::AddModToCommunity => "AddModToCommunity",
            UserOperation::CreatePost => "CreatePost",
            UserOperation::GetPost => "GetPost",
            UserOperation::GetPosts => "GetPosts",
            UserOperation::EditPost => "EditPost",
            UserOperation::DeletePost => "DeletePost",
            UserOperation::RemovePost => "RemovePost",
            UserOperation::LockPost => "LockPost",
            UserOperation::StickyPost => "StickyPost",
            UserOperation::CreatePostLike => "CreatePostLike",
            UserOperation::SavePost => "SavePost",
            UserOperation::CreateComment => "CreateComment",
            UserOperation::EditComment => "EditComment",
            UserOperation::DeleteComment => "DeleteComment",
            UserOperation::RemoveComment => "RemoveComment",
            UserOperation::MarkCommentAsRead => "MarkCommentAsRead",
            UserOperation::SaveComment => "SaveComment",
            UserOperation::GetComments => "GetComments",
            UserOperation::CreateCommentLike => "CreateCommentLike",
        }
    }

    /// The operation that a wire name stands for; `None` for a name that
    /// is not in the table.
    pub fn from_name(s: &str) -> (r: Option<UserOperation>)
        ensures
            r == op_of_name(s@),
    {
        let wanted = String::from_str(s);
        let mut i: usize = 0;
        while i < OP_COUNT
            invariant
                i <= OP_COUNT,
                wanted@ == s@,
                forall|o: UserOperation| op_index(o) < i ==> op_name(o) != s@,
            decreases OP_COUNT - i,
        {
            let op = op_at(i);
            let candidate = String::from_str(op.name());
            if candidate == wanted {
                proof {
                    lemma_name_round_trip(op);
                }
                return Some(op);
            }
            proof {
                assert forall|o: UserOperation| op_index(o) < i + 1 implies op_name(o) != s@ by {
                    lemma_op_index(o, op);
                }
            }
            i += 1;
        }
        proof {
            assert forall|o: UserOperation| op_name(o) != s@ by {
                lemma_op_index(o, o);
            }
        }
        None
    }
}

} // verus!
