//! The plain data of the network: accounts, friendships, posts, comments,
//! groups and chat messages, as they are stored and as they are sent out.

use crate::text::same_text;
use vstd::prelude::*;
use vstd::std_specs::convert::FromSpecImpl;

verus! {

/// An account as stored.
#[derive(Debug, Clone, PartialEq, Eq)]
pub struct User {
    pub id: String,
    pub email: String,
    pub password_hash: String,
    pub username: String,
    pub display_name: String,
    pub avatar_url: Option<String>,
    pub bio: Option<String>,
    pub created_at: String,
}

#[derive(Debug)]
pub struct RegisterRequest {
    pub email: String,
    pub password: String,
    pub username: String,
    pub display_name: String,
}

#[derive(Debug)]
pub struct LoginRequest {
    pub email: String,
    pub password: String,
}

#[derive(Debug)]
pub struct AuthResponse {
    pub token: String,
    pub user: UserResponse,
}

/// An account as shown to others: a [`User`] without its password hash and
/// creation time.
#[derive(Debug, Clone, PartialEq, Eq)]
pub struct UserResponse {
    pub id: String,
    pub email: String,
    pub username: String,
    pub display_name: String,
    pub avatar_url: Option<String>,
    pub bio: Option<String>,
}

impl From<User> for UserResponse {
    fn from(user: User) -> (shown: UserResponse) {
        UserResponse {
            id: user.id,
            email: user.email,
            username: user.username,
            display_name: user.display_name,
            avatar_url: user.avatar_url,
            bio: user.bio,
        }
    }
}

impl FromSpecImpl<User> for UserResponse {
    open spec fn obeys_from_spec() -> bool {
        true
    }

    open spec fn from_spec(user: User) -> UserResponse {
        UserResponse {
            id: user.id,
            email: user.email,
            username: user.username,
            display_name: user.display_name,
            avatar_url: user.avatar_url,
            bio: user.bio,
        }
    }
}

/// A friendship as stored; `status` is `pending`, `accepted` or `rejected`.
#[derive(Debug, Clone, PartialEq, Eq)]
pub struct Friendship {
    pub id: String,
    pub user_id: String,
    pub friend_id: String,
    pub status: String,
    pub created_at: String,
}

#[derive(Debug)]
pub struct FriendWithUser {
    pub friendship_id: String,
    pub user: UserResponse,
    pub status: String,
    pub created_at: String,
}

/// Who may see a post.
#[derive(Debug, Clone, PartialEq, Eq)]
pub enum PostVisibility {
    Public,
    FriendsOnly,
    Private,
}

/// The visibility that a stored word stands for: `public` and `private`
/// stand for themselves, every other word for friends only.
pub open spec fn visibility_of(word: Seq<char>) -> PostVisibility {
    if word == "public"@ {
        PostVisibility::Public
    } else if word == "private"@ {
        PostVisibility::Private
    } else {
        PostVisibility::FriendsOnly
    }
}

/// The word under which a visibility is stored.
pub open spec fn visibility_word(visibility: PostVisibility) -> Seq<char> {
    match visibility {
        PostVisibility::Public => "public"@,
        PostVisibility::FriendsOnly => "friends_only"@,
        PostVisibility::Private => "private"@,
    }
}

impl From<String> for PostVisibility {
    fn from(s: String) -> (visibility: PostVisibility) {
        if same_text(s.as_str(), "public") {
            PostVisibility::Public
        } else if same_text(s.as_str(), "private") {
            PostVisibility::Private
        } else {
            PostVisibility::FriendsOnly
        }
    }
}

impl FromSpecImpl<String> for PostVisibility {
    open spec fn obeys_from_spec() -> bool {
        true
    }

    open spec fn from_spec(s: String) -> PostVisibility {
        visibility_of(s@)
    }
}

impl PostVisibility {
    /// The word under which this visibility is stored.
    pub fn to_string(&self) -> (word: String)
        ensures
            word@ == visibility_word(*self),
    {
        match self {
            PostVisibility::Public => "public".to_string(),
            PostVisibility::FriendsOnly => "friends_only".to_string(),
            PostVisibility::Private => "private".to_string(),
        }
    }
}

/// Reading back the word of a visibility gives the visibility.
pub proof fn visibility_word_round_trip(visibility: PostVisibility)
    ensures
        visibility_of(visibility_word(visibility)) == visibility,
{
    reveal_strlit("public");
    reveal_strlit("private");
    reveal_strlit("friends_only");
    assert("public"@.len() != "friends_only"@.len());
    assert("private"@.len() != "friends_only"@.len());
    assert("public"@.len() != "private"@.len());
}

#[derive(Debug, Clone, PartialEq, Eq)]
pub struct Post {
    pub id: String,
    pub user_id: String,
    pub content: String,
    pub visibility: String,
    pub group_id: Option<String>,
    pub is_anonymous: bool,
    pub created_at: String,
    pub updated_at: String,
}

#[derive(Debug)]
pub struct CreatePostRequest {
    pub content: String,
    pub visibility: Option<String>,
}

#[derive(Debug, PartialEq, Eq)]
pub struct PostResponse {
    pub id: String,
    pub user: Option<UserResponse>,
    pub content: String,
    pub visibility: String,
    pub is_anonymous: bool,
    pub likes_count: i32,
    pub comments_count: i32,
    pub is_liked: bool,
    pub created_at: String,
}

#[derive(Debug, Clone, PartialEq, Eq)]
pub struct Comment {
    pub id: String,
    pub post_id: String,
    pub user_id: String,
    pub content: String,
    pub is_anonymous: bool,
    pub created_at: String,
}

#[derive(Debug)]
pub struct CreateCommentRequest {
    pub content: String,
    pub is_anonymous: Option<bool>,
}

#[derive(Debug, PartialEq, Eq)]
pub struct CommentResponse {
    pub id: String,
    pub user: Option<UserResponse>,
    pub content: String,
    pub is_anonymous: bool,
    pub created_at: String,
}

#[derive(Debug, Clone)]
pub struct Like {
    pub id: String,
    pub post_id: String,
    pub user_id: String,
    pub created_at: String,
}

#[derive(Debug, Clone, PartialEq, Eq)]
pub struct Group {
    pub id: String,
    pub name: String,
    pub description: Option<String>,
    pub cover_image: Option<String>,
    pub creator_id: String,
    pub is_private: bool,
    pub created_at: String,
}

#[derive(Debug)]
pub struct CreateGroupRequest {
    pub name: String,
    pub description: Option<String>,
    pub is_private: Option<bool>,
}

#[derive(Debug, PartialEq, Eq)]
pub struct GroupResponse {
    pub id: String,
    pub name: String,
    pub description: Option<String>,
    pub cover_image: Option<String>,
    pub creator: UserResponse,
    pub is_private: bool,
    pub members_count: i32,
    pub is_member: bool,
    pub created_at: String,
}

/// A membership as stored; `role` is `admin`, `moderator` or `member`.
#[derive(Debug, Clone)]
pub struct GroupMember {
    pub id: String,
    pub group_id: String,
    pub user_id: String,
    pub role: String,
    pub joined_at: String,
}

#[derive(Debug)]
pub struct CreateGroupPostRequest {
    pub content: String,
    pub is_anonymous: Option<bool>,
}

/// A chat message as stored. The relay sees `encrypted_content` and `iv` as
/// opaque text: it neither reads nor changes them.
#[derive(Debug, Clone, PartialEq, Eq)]
pub struct Message {
    pub id: String,
    pub sender_id: String,
    pub receiver_id: String,
    pub encrypted_content: String,
    pub iv: String,
    pub created_at: String,
    pub is_read: bool,
}

#[derive(Debug)]
pub struct SendMessageRequest {
    pub receiver_id: String,
    pub encrypted_content: String,
    pub iv: String,
}

/// A chat message as relayed and as sent out.
#[derive(Debug, Clone, PartialEq, Eq)]
pub struct MessageResponse {
    pub id: String,
    pub sender_id: String,
    pub receiver_id: String,
    pub encrypted_content: String,
    pub iv: String,
    pub created_at: String,
    pub is_read: bool,
}

/// The abstract value of a chat message.
pub struct ChatRecord {
    pub id: Seq<char>,
    pub sender_id: Seq<char>,
    pub receiver_id: Seq<char>,
    pub encrypted_content: Seq<char>,
    pub iv: Seq<char>,
    pub created_at: Seq<char>,
    pub is_read: bool,
}

impl View for MessageResponse {
    type V = ChatRecord;

    open spec fn view(&self) -> ChatRecord {
        ChatRecord {
            id: self.id@,
            sender_id: self.sender_id@,
            receiver_id: self.receiver_id@,
            encrypted_content: self.encrypted_content@,
            iv: self.iv@,
            created_at: self.created_at@,
            is_read: self.is_read,
        }
    }
}

impl MessageResponse {
    /// A copy of this message, field for field.
    pub fn duplicate(&self) -> (copy: MessageResponse)
        ensures
            copy@ == self@,
    {
        MessageResponse {
            id: self.id.clone(),
            sender_id: self.sender_id.clone(),
            receiver_id: self.receiver_id.clone(),
            encrypted_content: self.encrypted_content.clone(),
            iv: self.iv.clone(),
            created_at: self.created_at.clone(),
            is_read: self.is_read,
        }
    }
}

impl View for Message {
    type V = ChatRecord;

    open spec fn view(&self) -> ChatRecord {
        ChatRecord {
            id: self.id@,
            sender_id: self.sender_id@,
            receiver_id: self.receiver_id@,
            encrypted_content: self.encrypted_content@,
            iv: self.iv@,
            created_at: self.created_at@,
            is_read: self.is_read,
        }
    }
}

#[derive(Debug, Clone)]
pub struct UserPublicKey {
    pub user_id: String,
    pub public_key: String,
    pub created_at: String,
}

#[derive(Debug)]
pub struct StorePublicKeyRequest {
    pub public_key: String,
}

#[derive(Debug)]
pub struct ConversationResponse {
    pub user: UserResponse,
    pub last_message: Option<MessageResponse>,
    pub unread_count: i32,
}

/// The query of a user search.
pub struct SearchQuery {
    pub q: Option<String>,
}

} // verus!
