//! The messages of the two backends. Each backend speaks only its own; what
//! ends in a colon and a space is followed by the underlying error's text.

use vstd::prelude::*;

verus! {

/// Filesystem backend: the location exists.
pub const SHARE_ACCESSIBLE: &'static str = "SMB 路径可访问";

/// Filesystem backend: the location did not exist and was created.
pub const SHARE_CREATED: &'static str = "SMB 路径已创建";

/// Filesystem backend: the location neither exists nor can be created.
pub const SHARE_UNREACHABLE: &'static str = "无法访问 SMB 路径: ";

/// Filesystem backend: the directory for the document cannot be created.
pub const SHARE_NO_DIRECTORY: &'static str = "无法创建目录: ";

/// Filesystem backend: the document was written.
pub const SHARE_SAVED: &'static str = "数据已保存";

/// Filesystem backend: the document cannot be written.
pub const SHARE_WRITE_FAILED: &'static str = "写入失败: ";

/// Filesystem backend: the document was read.
pub const SHARE_LOADED: &'static str = "数据已读取";

/// Filesystem backend: the document cannot be read.
pub const SHARE_READ_FAILED: &'static str = "读取失败: ";

/// Remote shell: the host was reached and the credentials were accepted.
pub const SHELL_CONNECTED: &'static str = "SSH 连接成功";

/// Remote shell, connection test: no TCP connection.
pub const SHELL_UNREACHABLE: &'static str = "无法连接服务器: ";

/// Remote shell, transfers: no TCP connection.
pub const SHELL_NO_CONNECTION: &'static str = "连接失败: ";

/// Remote shell: the handshake failed.
pub const SHELL_NO_HANDSHAKE: &'static str = "SSH 握手失败: ";

/// Remote shell: the authentication exchange itself failed.
pub const SHELL_AUTH_ERROR: &'static str = "认证失败: ";

/// Remote shell: the exchange went through and the credentials were not
/// accepted. Nothing of the server's answer follows.
pub const SHELL_AUTH_REJECTED: &'static str = "认证失败";

/// Remote shell: the file-transfer sub-channel cannot be opened.
pub const SHELL_NO_SUBSYSTEM: &'static str = "SFTP 初始化失败: ";

/// Remote shell: the remote document cannot be created.
pub const SHELL_CREATE_FAILED: &'static str = "创建文件失败: ";

/// Remote shell: the remote document cannot be written.
pub const SHELL_WRITE_FAILED: &'static str = "写入失败: ";

/// Remote shell: the document was written.
pub const SHELL_UPLOADED: &'static str = "数据已上传";

/// Remote shell: the remote document cannot be opened.
pub const SHELL_OPEN_FAILED: &'static str = "文件不存在或无法读取: ";

/// Remote shell: the remote document cannot be read to its end.
pub const SHELL_READ_FAILED: &'static str = "读取失败: ";

/// Remote shell: the document was read.
pub const SHELL_DOWNLOADED: &'static str = "数据已下载";

/// The messages with which the filesystem backend reports a success.
pub open spec fn share_success_text(m: Seq<char>) -> bool {
    m == SHARE_ACCESSIBLE@ || m == SHARE_CREATED@ || m == SHARE_SAVED@ || m == SHARE_LOADED@
}

/// The messages with which the remote-shell backend reports a success.
pub open spec fn shell_success_text(m: Seq<char>) -> bool {
    m == SHELL_CONNECTED@ || m == SHELL_UPLOADED@ || m == SHELL_DOWNLOADED@
}

/// No message of success belongs to both backends.
pub proof fn lemma_success_vocabularies_are_disjoint()
    ensures
        forall|m: Seq<char>| !(share_success_text(m) && shell_success_text(m)),
{
    reveal_strlit("SMB 路径可访问");
    reveal_strlit("SMB 路径已创建");
    reveal_strlit("数据已保存");
    reveal_strlit("数据已读取");
    reveal_strlit("SSH 连接成功");
    reveal_strlit("数据已上传");
    reveal_strlit("数据已下载");
    assert forall|m: Seq<char>| !(share_success_text(m) && shell_success_text(m)) by {
        if share_success_text(m) && shell_success_text(m) {
            // only the messages of five characters have the same length,
            // and those differ in the fourth
            assert(m.len() == 5);
            assert(m[3] == '上' || m[3] == '下');
            assert(m[3] == '保' || m[3] == '读');
        }
    }
}

} // verus!
