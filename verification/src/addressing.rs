//! What the command grammar means for those who address a node: which texts
//! reach it, which do not, and what arrives.

use vstd::prelude::*;
use crate::command::{
    addressed_payload, discovery_word, info_keyword, info_part, info_payload,
    interfaces_addressee, interfaces_keyword, is_discovery, is_interfaces_query,
    lemma_keyword_holds_word, matched_commands, separator, shell_keyword, shell_part,
    shell_payload, CommandModel,
};
use crate::text::{
    contains, has_prefix, lemma_first_index_unique, occurs_at, strip_leading, without_prefix,
};

verus! {

/// `s` holds no separator.
pub open spec fn no_separator(s: Seq<char>) -> bool {
    forall|j: int| 0 <= j < s.len() ==> s[j] != ':'
}

/// `s` is not empty and does not begin with a separator.
pub open spec fn begins_plainly(s: Seq<char>) -> bool {
    s.len() > 0 && s[0] != ':'
}

/// The text that addresses `payload` to `node_name` under the keyword made of
/// `word` and a separator.
pub open spec fn addressed_text(word: Seq<char>, node_name: Seq<char>, payload: Seq<char>) -> Seq<
    char,
> {
    word + separator() + node_name + separator() + payload
}

/// A text without a separator holds no pattern that has one.
pub proof fn lemma_pattern_needs_separator(s: Seq<char>, p: Seq<char>, k: int)
    requires
        no_separator(s),
        0 <= k < p.len(),
        p[k] == ':',
    ensures
        !contains(s, p),
{
    assert forall|at: int| !occurs_at(s, p, at) by {
        if occurs_at(s, p, at) {
            assert(s.subrange(at, at + p.len())[k] == s[at + k]);
        }
    }
}

/// A text without the character that a pattern has at position `k` does not
/// hold the pattern.
pub proof fn lemma_pattern_needs_character(s: Seq<char>, p: Seq<char>, k: int)
    requires
        0 <= k < p.len(),
        !s.contains(p[k]),
    ensures
        !contains(s, p),
{
    assert forall|at: int| !occurs_at(s, p, at) by {
        if occurs_at(s, p, at) {
            assert(s.subrange(at, at + p.len())[k] == s[at + k]);
            assert(s.contains(s[at + k]));
        }
    }
}

/// A text that differs from a pattern at position `k`, or ends before it, does
/// not begin with the pattern.
pub proof fn lemma_prefix_mismatch(s: Seq<char>, p: Seq<char>, k: int)
    requires
        0 <= k < p.len(),
        s.len() <= k || s[k] != p[k],
    ensures
        !has_prefix(s, p),
        without_prefix(s, p) == s,
{
    if has_prefix(s, p) {
        assert(s.subrange(0, p.len() as int)[k] == s[k]);
    }
}

/// A text carries nothing for a node under a keyword it does not begin with
/// if what stands before its first separator is not the node's name.
pub proof fn lemma_foreign_address(
    text: Seq<char>,
    keyword: Seq<char>,
    k: int,
    cut: int,
    node_name: Seq<char>,
)
    requires
        0 <= k < keyword.len(),
        text.len() <= k || text[k] != keyword[k],
        0 <= cut <= text.len(),
        forall|j: int| 0 <= j < cut ==> text[j] != ':',
        cut < text.len() ==> text[cut] == ':',
        text.take(cut) != node_name,
    ensures
        addressed_payload(text, keyword, node_name) is None,
{
    lemma_prefix_mismatch(text, keyword, k);
    lemma_first_index_unique(text, ':', cut);
}

/// The discovery word holds no separator.
pub proof fn lemma_discovery_word_has_no_separator()
    ensures
        no_separator(discovery_word()),
        discovery_word().len() == 5,
{
    reveal_strlit("hello");
}

/// A text that differs from the interfaces keyword at position `k`, or ends
/// before it, is no interfaces query.
pub proof fn lemma_not_interfaces_query(text: Seq<char>, node_name: Seq<char>, k: int)
    requires
        0 <= k < interfaces_keyword().len(),
        text.len() <= k || text[k] != interfaces_keyword()[k],
    ensures
        !is_interfaces_query(text, node_name),
{
    lemma_prefix_mismatch(text, interfaces_keyword(), k);
}

/// A payload under a keyword arrives as it was sent, whatever the keyword's
/// word, provided the name is not empty and holds no separator, and the
/// payload is not empty and does not begin with one.
pub proof fn lemma_addressed_payload(word: Seq<char>, node_name: Seq<char>, payload: Seq<char>)
    requires
        node_name.len() > 0,
        no_separator(node_name),
        begins_plainly(payload),
    ensures
        addressed_payload(addressed_text(word, node_name, payload), word + separator(), node_name)
            == Some(payload),
{
    let keyword = word + separator();
    let rest = node_name + separator() + payload;
    let text = addressed_text(word, node_name, payload);
    let n = node_name.len() as int;
    assert(text =~= keyword + rest);
    assert(text.subrange(0, keyword.len() as int) =~= keyword);
    assert(occurs_at(text, keyword, 0));
    assert(text.skip(keyword.len() as int) =~= rest);
    assert(without_prefix(text, keyword) == rest);
    lemma_first_index_unique(rest, ':', n);
    assert(rest.take(n) =~= node_name);
    assert(rest.skip(n + 1) =~= payload);
    assert(!has_prefix(payload, separator())) by {
        if has_prefix(payload, separator()) {
            assert(payload.subrange(0, 1)[0] == payload[0]);
        }
    }
    assert(strip_leading(payload, separator()) == payload);
}

/// A text that begins with the interfaces keyword is a query for the node
/// whose name is what follows the keyword, and for no node if nothing
/// follows.
pub proof fn lemma_interfaces_query(rest: Seq<char>, node_name: Seq<char>)
    ensures
        is_interfaces_query(interfaces_keyword() + rest, node_name) == (node_name.len() > 0
            && rest == node_name),
{
    reveal_strlit("ips:");
    let keyword = interfaces_keyword();
    let text = keyword + rest;
    assert(text.subrange(0, keyword.len() as int) =~= keyword);
    assert(text.skip(keyword.len() as int) =~= rest);
    assert(interfaces_addressee(text) == rest);
    lemma_keyword_holds_word(text);
}

/// An interfaces query that names a node reaches that node, whatever its
/// name, so long as it has one.
pub proof fn theorem_interfaces_query_reaches_named_node(node_name: Seq<char>)
    requires
        node_name.len() > 0,
    ensures
        is_interfaces_query(interfaces_keyword() + node_name, node_name),
{
    lemma_interfaces_query(node_name, node_name);
}

/// An interfaces query that names another node does not reach this one.
pub proof fn theorem_interfaces_query_spares_other_nodes(
    node_name: Seq<char>,
    other: Seq<char>,
)
    requires
        other != node_name,
    ensures
        !is_interfaces_query(interfaces_keyword() + other, node_name),
{
    lemma_interfaces_query(other, node_name);
}

/// A shell command addressed to a node arrives there with its command line
/// unchanged. The name must be one that can be addressed: not empty and
/// without a separator. The command line must not be empty and must not begin
/// with a separator, which would be taken off.
pub proof fn theorem_shell_command_arrives(node_name: Seq<char>, command_line: Seq<char>)
    requires
        node_name.len() > 0,
        no_separator(node_name),
        begins_plainly(command_line),
    ensures
        shell_payload(shell_keyword() + node_name + separator() + command_line, node_name)
            == Some(command_line),
{
    reveal_strlit("cmd:");
    reveal_strlit("cmd");
    assert(shell_keyword() =~= "cmd"@ + separator());
    lemma_addressed_payload("cmd"@, node_name, command_line);
}

/// An info mutation addressed to a node arrives there with its text
/// unchanged. The name must be one that can be addressed: not empty and
/// without a separator. The text must not be empty and must not begin with a
/// separator, which would be taken off.
pub proof fn theorem_info_mutation_arrives(node_name: Seq<char>, info: Seq<char>)
    requires
        node_name.len() > 0,
        no_separator(node_name),
        begins_plainly(info),
    ensures
        info_payload(info_keyword() + node_name + separator() + info, node_name) == Some(info),
{
    reveal_strlit("info:");
    reveal_strlit("info");
    assert(info_keyword() =~= "info"@ + separator());
    lemma_addressed_payload("info"@, node_name, info);
}

/// The discovery word is a discovery request and nothing else, whatever the
/// node is called.
pub proof fn lemma_discovery_stands_alone(node_name: Seq<char>)
    ensures
        matched_commands(discovery_word(), node_name) == seq![CommandModel::Discovery],
{
    let text = discovery_word();
    lemma_discovery_word_has_no_separator();
    assert(!is_interfaces_query(text, node_name)) by {
        reveal_strlit("hello");
        reveal_strlit("ips:");
        lemma_not_interfaces_query(text, node_name, 0);
    }
    assert(shell_payload(text, node_name) is None) by {
        reveal_strlit("cmd:");
        lemma_pattern_needs_separator(text, shell_keyword(), 3);
    }
    assert(info_payload(text, node_name) is None) by {
        reveal_strlit("info:");
        lemma_pattern_needs_separator(text, info_keyword(), 4);
    }
    assert(matched_commands(text, node_name) =~= seq![CommandModel::Discovery]);
}

/// A text that is an interfaces query for a node is nothing else for it.
pub proof fn lemma_interfaces_query_stands_alone(text: Seq<char>, node_name: Seq<char>)
    requires
        is_interfaces_query(text, node_name),
    ensures
        matched_commands(text, node_name) == seq![CommandModel::Interfaces],
{
    assert(text.len() >= 4 && text[0] == 'i' && text[1] == 'p' && text[2] == 's' && text[3]
        == ':') by {
        reveal_strlit("ips:");
        let head = text.subrange(0, 4);
        assert(head[0] == text[0] && head[1] == text[1] && head[2] == text[2] && head[3]
            == text[3]);
    }
    assert(!is_discovery(text)) by {
        lemma_discovery_word_has_no_separator();
    }
    if text.take(3) == node_name {
        // The name is `ips`, so the text is `ips:ips`, which holds no other keyword.
        assert(text.skip(4) == node_name) by {
            reveal_strlit("ips:");
        }
        assert(text.len() == 7);
        assert forall|j: int| 0 <= j < text.len() implies text[j] != 'c' && text[j] != 'n' by {
            if j >= 4 {
                assert(text.skip(4)[j - 4] == text[j]);
                assert(text.take(3)[j - 4] == text[j - 4]);
            }
        }
        assert(!contains(text, shell_keyword())) by {
            reveal_strlit("cmd:");
            lemma_pattern_needs_character(text, shell_keyword(), 0);
        }
        assert(!contains(text, info_keyword())) by {
            reveal_strlit("info:");
            lemma_pattern_needs_character(text, info_keyword(), 1);
        }
    } else {
        assert(shell_payload(text, node_name) is None) by {
            reveal_strlit("cmd:");
            lemma_foreign_address(text, shell_keyword(), 0, 3, node_name);
        }
        assert(info_payload(text, node_name) is None) by {
            reveal_strlit("info:");
            lemma_foreign_address(text, info_keyword(), 1, 3, node_name);
        }
    }
    assert(matched_commands(text, node_name) =~= seq![CommandModel::Interfaces]);
}

/// A shell command addressed to a node is, for that node, that shell command
/// first. Nothing else follows it, unless the node is called `cmd`: what
/// stands before the first separator of the text is then its name, and the
/// text is an info mutation for it too if it holds that keyword.
pub proof fn lemma_shell_command_comes_first(node_name: Seq<char>, command_line: Seq<char>)
    requires
        node_name.len() > 0,
        no_separator(node_name),
        begins_plainly(command_line),
    ensures
        ({
            let text = shell_keyword() + node_name + separator() + command_line;
            &&& matched_commands(text, node_name) == seq![CommandModel::Shell { command_line }]
                + info_part(text, node_name)
            &&& info_part(text, node_name).len() <= 1
            &&& node_name != "cmd"@ ==> info_part(text, node_name).len() == 0
        }),
{
    let text = shell_keyword() + node_name + separator() + command_line;
    theorem_shell_command_arrives(node_name, command_line);
    assert(text.len() > 4 && text[0] == 'c' && text[1] == 'm' && text[2] == 'd' && text[3]
        == ':') by {
        reveal_strlit("cmd:");
    }
    assert(!is_discovery(text)) by {
        lemma_discovery_word_has_no_separator();
    }
    assert(!is_interfaces_query(text, node_name)) by {
        reveal_strlit("ips:");
        lemma_not_interfaces_query(text, node_name, 0);
    }
    if node_name != "cmd"@ {
        assert(text.take(3) != node_name) by {
            reveal_strlit("cmd");
            assert(text.take(3) =~= "cmd"@);
        }
        assert(info_payload(text, node_name) is None) by {
            reveal_strlit("info:");
            lemma_foreign_address(text, info_keyword(), 0, 3, node_name);
        }
    }
    assert(matched_commands(text, node_name) =~= seq![CommandModel::Shell { command_line }]
        + info_part(text, node_name));
}

/// An info mutation addressed to a node is, for that node, that info mutation
/// last. Nothing else comes before it, unless the node is called `info`: what
/// stands before the first separator of the text is then its name, and the
/// text is a shell command for it too if it holds that keyword.
pub proof fn lemma_info_mutation_comes_last(node_name: Seq<char>, info: Seq<char>)
    requires
        node_name.len() > 0,
        no_separator(node_name),
        begins_plainly(info),
    ensures
        ({
            let text = info_keyword() + node_name + separator() + info;
            &&& matched_commands(text, node_name) == shell_part(text, node_name)
                + seq![CommandModel::SetInfo { info }]
            &&& shell_part(text, node_name).len() <= 1
            &&& node_name != "info"@ ==> shell_part(text, node_name).len() == 0
        }),
{
    let text = info_keyword() + node_name + separator() + info;
    theorem_info_mutation_arrives(node_name, info);
    assert(text.len() > 5 && text[0] == 'i' && text[1] == 'n' && text[2] == 'f' && text[3] == 'o'
        && text[4] == ':') by {
        reveal_strlit("info:");
    }
    assert(!is_discovery(text)) by {
        lemma_discovery_word_has_no_separator();
    }
    assert(!is_interfaces_query(text, node_name)) by {
        reveal_strlit("ips:");
        lemma_not_interfaces_query(text, node_name, 1);
    }
    if node_name != "info"@ {
        assert(text.take(4) != node_name) by {
            reveal_strlit("info");
            assert(text.take(4) =~= "info"@);
        }
        assert(shell_payload(text, node_name) is None) by {
            reveal_strlit("cmd:");
            lemma_foreign_address(text, shell_keyword(), 0, 4, node_name);
        }
    }
    assert(matched_commands(text, node_name) =~= shell_part(text, node_name)
        + seq![CommandModel::SetInfo { info }]);
}

/// A text whose payload part is empty carries nothing for the node it names,
/// under whatever keyword.
pub proof fn theorem_empty_payload_carries_nothing(word: Seq<char>, node_name: Seq<char>)
    ensures
        addressed_payload(
            word + separator() + node_name + separator(),
            word + separator(),
            node_name,
        ) is None,
{
    let keyword = word + separator();
    let rest = node_name + separator();
    let text = word + separator() + node_name + separator();
    assert(text =~= keyword + rest);
    assert(text.subrange(0, keyword.len() as int) =~= keyword);
    assert(text.skip(keyword.len() as int) =~= rest);
    assert(without_prefix(text, keyword) == rest);
    crate::text::lemma_first_index(rest, ':');
    let cut = crate::text::first_index(rest, ':');
    if cut < node_name.len() {
        assert(rest.take(cut).len() != node_name.len());
    }
}

/// A shell command or an info mutation without a payload is no command at all
/// for the node it names.
pub proof fn lemma_empty_payload_matches_nothing(node_name: Seq<char>)
    ensures
        matched_commands(shell_keyword() + node_name + separator(), node_name)
            == Seq::<CommandModel>::empty(),
        matched_commands(info_keyword() + node_name + separator(), node_name)
            == Seq::<CommandModel>::empty(),
{
    lemma_discovery_word_has_no_separator();
    let shell_text = shell_keyword() + node_name + separator();
    assert(shell_text.len() >= 5 && shell_text[0] == 'c' && shell_text[1] == 'm' && shell_text[2]
        == 'd' && shell_text[3] == ':') by {
        reveal_strlit("cmd:");
    }
    assert(shell_payload(shell_text, node_name) is None) by {
        reveal_strlit("cmd:");
        reveal_strlit("cmd");
        assert(shell_keyword() =~= "cmd"@ + separator());
        assert(shell_text =~= "cmd"@ + separator() + node_name + separator());
        theorem_empty_payload_carries_nothing("cmd"@, node_name);
    }
    assert(!is_interfaces_query(shell_text, node_name)) by {
        reveal_strlit("ips:");
        lemma_not_interfaces_query(shell_text, node_name, 0);
    }
    assert(info_payload(shell_text, node_name) is None) by {
        reveal_strlit("info:");
        if shell_text.take(3) == node_name {
            reveal_strlit("cmd:");
            assert(node_name.len() == shell_text.take(3).len());
            assert(shell_text.len() == 8);
            assert forall|j: int| 0 <= j < shell_text.len() implies shell_text[j] != 'i' by {
                if 4 <= j < 7 {
                    assert(shell_text.take(3)[j - 4] == shell_text[j - 4]);
                }
            }
            lemma_pattern_needs_character(shell_text, info_keyword(), 0);
        } else {
            lemma_foreign_address(shell_text, info_keyword(), 0, 3, node_name);
        }
    }
    assert(matched_commands(shell_text, node_name) =~= Seq::<CommandModel>::empty());

    let info_text = info_keyword() + node_name + separator();
    assert(info_text.len() >= 6 && info_text[0] == 'i' && info_text[1] == 'n' && info_text[2]
        == 'f' && info_text[3] == 'o' && info_text[4] == ':') by {
        reveal_strlit("info:");
    }
    assert(info_payload(info_text, node_name) is None) by {
        reveal_strlit("info:");
        reveal_strlit("info");
        assert(info_keyword() =~= "info"@ + separator());
        assert(info_text =~= "info"@ + separator() + node_name + separator());
        theorem_empty_payload_carries_nothing("info"@, node_name);
    }
    assert(!is_interfaces_query(info_text, node_name)) by {
        reveal_strlit("ips:");
        lemma_not_interfaces_query(info_text, node_name, 1);
    }
    assert(shell_payload(info_text, node_name) is None) by {
        reveal_strlit("cmd:");
        if info_text.take(4) == node_name {
            reveal_strlit("info:");
            assert(node_name.len() == info_text.take(4).len());
            assert(info_text.len() == 10);
            assert forall|j: int| 0 <= j < info_text.len() implies info_text[j] != 'c' by {
                if 5 <= j < 9 {
                    assert(info_text.take(4)[j - 5] == info_text[j - 5]);
                }
            }
            lemma_pattern_needs_character(info_text, shell_keyword(), 0);
        } else {
            lemma_foreign_address(info_text, shell_keyword(), 0, 4, node_name);
        }
    }
    assert(matched_commands(info_text, node_name) =~= Seq::<CommandModel>::empty());
}

/// An interfaces query that names another node is, for this node, neither an
/// interfaces query nor a discovery request. It is nothing at all for it,
/// unless this node is called `ips`: what stands before the first separator of
/// the text is then its name.
pub proof fn lemma_interfaces_query_for_another(node_name: Seq<char>, other: Seq<char>)
    requires
        other != node_name,
    ensures
        ({
            let text = interfaces_keyword() + other;
            &&& matched_commands(text, node_name) == shell_part(text, node_name) + info_part(
                text,
                node_name,
            )
            &&& node_name != "ips"@ ==> matched_commands(text, node_name)
                == Seq::<CommandModel>::empty()
        }),
{
    let text = interfaces_keyword() + other;
    theorem_interfaces_query_spares_other_nodes(node_name, other);
    assert(text.len() >= 4 && text[0] == 'i' && text[1] == 'p' && text[2] == 's' && text[3]
        == ':') by {
        reveal_strlit("ips:");
    }
    assert(!is_discovery(text)) by {
        lemma_discovery_word_has_no_separator();
    }
    if node_name != "ips"@ {
        assert(text.take(3) != node_name) by {
            reveal_strlit("ips");
            assert(text.take(3) =~= "ips"@);
        }
        assert(shell_payload(text, node_name) is None) by {
            reveal_strlit("cmd:");
            lemma_foreign_address(text, shell_keyword(), 0, 3, node_name);
        }
        assert(info_payload(text, node_name) is None) by {
            reveal_strlit("info:");
            lemma_foreign_address(text, info_keyword(), 1, 3, node_name);
        }
    }
    assert(matched_commands(text, node_name) =~= shell_part(text, node_name) + info_part(
        text,
        node_name,
    ));
}

} // verus!
