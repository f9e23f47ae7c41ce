//! The smart aliases: each documented shorthand resolves to its template.

use vstd::prelude::*;

use crate::repo::{alias_target, normalized};

verus! {

// Each lemma below evaluates the alias table at one shorthand, telling the shorthand
// apart from every shorthand tried before it by length or by one character.
#[verifier::rlimit(100)]
proof fn lemma_alias_0()
    ensures
        alias_target("macos"@) == Some("Global/macOS"@),
{
    reveal_strlit("macos");
    reveal_strlit("Global/macOS");
}

#[verifier::rlimit(100)]
proof fn lemma_alias_1()
    ensures
        alias_target("mac"@) == Some("Global/macOS"@),
{
    reveal_strlit("mac");
    reveal_strlit("Global/macOS");
    reveal_strlit("macos");
    assert("macos"@.len() != "mac"@.len());
    reveal_strlit("osx");
    assert("osx"@[0] != "mac"@[0]);
}

#[verifier::rlimit(100)]
proof fn lemma_alias_2()
    ensures
        alias_target("osx"@) == Some("Global/macOS"@),
{
    reveal_strlit("osx");
    reveal_strlit("Global/macOS");
    reveal_strlit("macos");
    assert("macos"@.len() != "osx"@.len());
}

#[verifier::rlimit(100)]
proof fn lemma_alias_3()
    ensures
        alias_target("vscode"@) == Some("Global/Visual_Studio_Code"@),
{
    reveal_strlit("vscode");
    reveal_strlit("Global/Visual_Studio_Code");
    reveal_strlit("macos");
    assert("macos"@.len() != "vscode"@.len());
    reveal_strlit("osx");
    assert("osx"@.len() != "vscode"@.len());
    reveal_strlit("mac");
    assert("mac"@.len() != "vscode"@.len());
    reveal_strlit("darwin");
    assert("darwin"@[0] != "vscode"@[0]);
    reveal_strlit("apple");
    assert("apple"@.len() != "vscode"@.len());
}

#[verifier::rlimit(100)]
proof fn lemma_alias_4()
    ensures
        alias_target("idea"@) == Some("Global/JetBrains"@),
{
    reveal_strlit("idea");
    reveal_strlit("Global/JetBrains");
    reveal_strlit("macos");
    assert("macos"@.len() != "idea"@.len());
    reveal_strlit("osx");
    assert("osx"@.len() != "idea"@.len());
    reveal_strlit("mac");
    assert("mac"@.len() != "idea"@.len());
    reveal_strlit("darwin");
    assert("darwin"@.len() != "idea"@.len());
    reveal_strlit("apple");
    assert("apple"@.len() != "idea"@.len());
    reveal_strlit("vscode");
    assert("vscode"@.len() != "idea"@.len());
    reveal_strlit("visualstudiocode");
    assert("visualstudiocode"@.len() != "idea"@.len());
    reveal_strlit("vs-code");
    assert("vs-code"@.len() != "idea"@.len());
    reveal_strlit("code");
    assert("code"@[0] != "idea"@[0]);
}

#[verifier::rlimit(100)]
proof fn lemma_alias_5()
    ensures
        alias_target("jetbrains"@) == Some("Global/JetBrains"@),
{
    reveal_strlit("jetbrains");
    reveal_strlit("Global/JetBrains");
    reveal_strlit("macos");
    assert("macos"@.len() != "jetbrains"@.len());
    reveal_strlit("osx");
    assert("osx"@.len() != "jetbrains"@.len());
    reveal_strlit("mac");
    assert("mac"@.len() != "jetbrains"@.len());
    reveal_strlit("darwin");
    assert("darwin"@.len() != "jetbrains"@.len());
    reveal_strlit("apple");
    assert("apple"@.len() != "jetbrains"@.len());
    reveal_strlit("vscode");
    assert("vscode"@.len() != "jetbrains"@.len());
    reveal_strlit("visualstudiocode");
    assert("visualstudiocode"@.len() != "jetbrains"@.len());
    reveal_strlit("vs-code");
    assert("vs-code"@.len() != "jetbrains"@.len());
    reveal_strlit("code");
    assert("code"@.len() != "jetbrains"@.len());
    reveal_strlit("idea");
    assert("idea"@.len() != "jetbrains"@.len());
    reveal_strlit("intellij");
    assert("intellij"@.len() != "jetbrains"@.len());
}

#[verifier::rlimit(100)]
proof fn lemma_alias_6()
    ensures
        alias_target("windows"@) == Some("Global/Windows"@),
{
    reveal_strlit("windows");
    reveal_strlit("Global/Windows");
    reveal_strlit("macos");
    assert("macos"@.len() != "windows"@.len());
    reveal_strlit("osx");
    assert("osx"@.len() != "windows"@.len());
    reveal_strlit("mac");
    assert("mac"@.len() != "windows"@.len());
    reveal_strlit("darwin");
    assert("darwin"@.len() != "windows"@.len());
    reveal_strlit("apple");
    assert("apple"@.len() != "windows"@.len());
    reveal_strlit("vscode");
    assert("vscode"@.len() != "windows"@.len());
    reveal_strlit("visualstudiocode");
    assert("visualstudiocode"@.len() != "windows"@.len());
    reveal_strlit("vs-code");
    assert("vs-code"@[0] != "windows"@[0]);
    reveal_strlit("code");
    assert("code"@.len() != "windows"@.len());
    reveal_strlit("idea");
    assert("idea"@.len() != "windows"@.len());
    reveal_strlit("intellij");
    assert("intellij"@.len() != "windows"@.len());
    reveal_strlit("jetbrains");
    assert("jetbrains"@.len() != "windows"@.len());
    reveal_strlit("pycharm");
    assert("pycharm"@[0] != "windows"@[0]);
    reveal_strlit("clion");
    assert("clion"@.len() != "windows"@.len());
    reveal_strlit("webstorm");
    assert("webstorm"@.len() != "windows"@.len());
    reveal_strlit("goland");
    assert("goland"@.len() != "windows"@.len());
    reveal_strlit("rider");
    assert("rider"@.len() != "windows"@.len());
    reveal_strlit("phpstorm");
    assert("phpstorm"@.len() != "windows"@.len());
    reveal_strlit("rubymine");
    assert("rubymine"@.len() != "windows"@.len());
}

#[verifier::rlimit(100)]
proof fn lemma_alias_7()
    ensures
        alias_target("linux"@) == Some("Global/Linux"@),
{
    reveal_strlit("linux");
    reveal_strlit("Global/Linux");
    reveal_strlit("macos");
    assert("macos"@[0] != "linux"@[0]);
    reveal_strlit("osx");
    assert("osx"@.len() != "linux"@.len());
    reveal_strlit("mac");
    assert("mac"@.len() != "linux"@.len());
    reveal_strlit("darwin");
    assert("darwin"@.len() != "linux"@.len());
    reveal_strlit("apple");
    assert("apple"@[0] != "linux"@[0]);
    reveal_strlit("vscode");
    assert("vscode"@.len() != "linux"@.len());
    reveal_strlit("visualstudiocode");
    assert("visualstudiocode"@.len() != "linux"@.len());
    reveal_strlit("vs-code");
    assert("vs-code"@.len() != "linux"@.len());
    reveal_strlit("code");
    assert("code"@.len() != "linux"@.len());
    reveal_strlit("idea");
    assert("idea"@.len() != "linux"@.len());
    reveal_strlit("intellij");
    assert("intellij"@.len() != "linux"@.len());
    reveal_strlit("jetbrains");
    assert("jetbrains"@.len() != "linux"@.len());
    reveal_strlit("pycharm");
    assert("pycharm"@.len() != "linux"@.len());
    reveal_strlit("clion");
    assert("clion"@[0] != "linux"@[0]);
    reveal_strlit("webstorm");
    assert("webstorm"@.len() != "linux"@.len());
    reveal_strlit("goland");
    assert("goland"@.len() != "linux"@.len());
    reveal_strlit("rider");
    assert("rider"@[0] != "linux"@[0]);
    reveal_strlit("phpstorm");
    assert("phpstorm"@.len() != "linux"@.len());
    reveal_strlit("rubymine");
    assert("rubymine"@.len() != "linux"@.len());
    reveal_strlit("windows");
    assert("windows"@.len() != "linux"@.len());
    reveal_strlit("win");
    assert("win"@.len() != "linux"@.len());
    reveal_strlit("win32");
    assert("win32"@[0] != "linux"@[0]);
    reveal_strlit("win64");
    assert("win64"@[0] != "linux"@[0]);
}

#[verifier::rlimit(100)]
proof fn lemma_alias_8()
    ensures
        alias_target("node"@) == Some("Node"@),
{
    reveal_strlit("node");
    reveal_strlit("Node");
    reveal_strlit("macos");
    assert("macos"@.len() != "node"@.len());
    reveal_strlit("osx");
    assert("osx"@.len() != "node"@.len());
    reveal_strlit("mac");
    assert("mac"@.len() != "node"@.len());
    reveal_strlit("darwin");
    assert("darwin"@.len() != "node"@.len());
    reveal_strlit("apple");
    assert("apple"@.len() != "node"@.len());
    reveal_strlit("vscode");
    assert("vscode"@.len() != "node"@.len());
    reveal_strlit("visualstudiocode");
    assert("visualstudiocode"@.len() != "node"@.len());
    reveal_strlit("vs-code");
    assert("vs-code"@.len() != "node"@.len());
    reveal_strlit("code");
    assert("code"@[0] != "node"@[0]);
    reveal_strlit("idea");
    assert("idea"@[0] != "node"@[0]);
    reveal_strlit("intellij");
    assert("intellij"@.len() != "node"@.len());
    reveal_strlit("jetbrains");
    assert("jetbrains"@.len() != "node"@.len());
    reveal_strlit("pycharm");
    assert("pycharm"@.len() != "node"@.len());
    reveal_strlit("clion");
    assert("clion"@.len() != "node"@.len());
    reveal_strlit("webstorm");
    assert("webstorm"@.len() != "node"@.len());
    reveal_strlit("goland");
    assert("goland"@.len() != "node"@.len());
    reveal_strlit("rider");
    assert("rider"@.len() != "node"@.len());
    reveal_strlit("phpstorm");
    assert("phpstorm"@.len() != "node"@.len());
    reveal_strlit("rubymine");
    assert("rubymine"@.len() != "node"@.len());
    reveal_strlit("windows");
    assert("windows"@.len() != "node"@.len());
    reveal_strlit("win");
    assert("win"@.len() != "node"@.len());
    reveal_strlit("win32");
    assert("win32"@.len() != "node"@.len());
    reveal_strlit("win64");
    assert("win64"@.len() != "node"@.len());
    reveal_strlit("linux");
    assert("linux"@.len() != "node"@.len());
    reveal_strlit("vim");
    assert("vim"@.len() != "node"@.len());
    reveal_strlit("nvim");
    assert("nvim"@[1] != "node"@[1]);
    reveal_strlit("neovim");
    assert("neovim"@.len() != "node"@.len());
    reveal_strlit("emacs");
    assert("emacs"@.len() != "node"@.len());
    reveal_strlit("sublime");
    assert("sublime"@.len() != "node"@.len());
    reveal_strlit("sublimetext");
    assert("sublimetext"@.len() != "node"@.len());
    reveal_strlit("eclipse");
    assert("eclipse"@.len() != "node"@.len());
    reveal_strlit("xcode");
    assert("xcode"@.len() != "node"@.len());
}

#[verifier::rlimit(100)]
proof fn lemma_alias_9()
    ensures
        alias_target("python"@) == Some("Python"@),
{
    reveal_strlit("python");
    reveal_strlit("Python");
    reveal_strlit("macos");
    assert("macos"@.len() != "python"@.len());
    reveal_strlit("osx");
    assert("osx"@.len() != "python"@.len());
    reveal_strlit("mac");
    assert("mac"@.len() != "python"@.len());
    reveal_strlit("darwin");
    assert("darwin"@[0] != "python"@[0]);
    reveal_strlit("apple");
    assert("apple"@.len() != "python"@.len());
    reveal_strlit("vscode");
    assert("vscode"@[0] != "python"@[0]);
    reveal_strlit("visualstudiocode");
    assert("visualstudiocode"@.len() != "python"@.len());
    reveal_strlit("vs-code");
    assert("vs-code"@.len() != "python"@.len());
    reveal_strlit("code");
    assert("code"@.len() != "python"@.len());
    reveal_strlit("idea");
    assert("idea"@.len() != "python"@.len());
    reveal_strlit("intellij");
    assert("intellij"@.len() != "python"@.len());
    reveal_strlit("jetbrains");
    assert("jetbrains"@.len() != "python"@.len());
    reveal_strlit("pycharm");
    assert("pycharm"@.len() != "python"@.len());
    reveal_strlit("clion");
    assert("clion"@.len() != "python"@.len());
    reveal_strlit("webstorm");
    assert("webstorm"@.len() != "python"@.len());
    reveal_strlit("goland");
    assert("goland"@[0] != "python"@[0]);
    reveal_strlit("rider");
    assert("rider"@.len() != "python"@.len());
    reveal_strlit("phpstorm");
    assert("phpstorm"@.len() != "python"@.len());
    reveal_strlit("rubymine");
    assert("rubymine"@.len() != "python"@.len());
    reveal_strlit("windows");
    assert("windows"@.len() != "python"@.len());
    reveal_strlit("win");
    assert("win"@.len() != "python"@.len());
    reveal_strlit("win32");
    assert("win32"@.len() != "python"@.len());
    reveal_strlit("win64");
    assert("win64"@.len() != "python"@.len());
    reveal_strlit("linux");
    assert("linux"@.len() != "python"@.len());
    reveal_strlit("vim");
    assert("vim"@.len() != "python"@.len());
    reveal_strlit("nvim");
    assert("nvim"@.len() != "python"@.len());
    reveal_strlit("neovim");
    assert("neovim"@[0] != "python"@[0]);
    reveal_strlit("emacs");
    assert("emacs"@.len() != "python"@.len());
    reveal_strlit("sublime");
    assert("sublime"@.len() != "python"@.len());
    reveal_strlit("sublimetext");
    assert("sublimetext"@.len() != "python"@.len());
    reveal_strlit("eclipse");
    assert("eclipse"@.len() != "python"@.len());
    reveal_strlit("xcode");
    assert("xcode"@.len() != "python"@.len());
    reveal_strlit("node");
    assert("node"@.len() != "python"@.len());
    reveal_strlit("nodejs");
    assert("nodejs"@[0] != "python"@[0]);
    reveal_strlit("npm");
    assert("npm"@.len() != "python"@.len());
    reveal_strlit("yarn");
    assert("yarn"@.len() != "python"@.len());
    reveal_strlit("pnpm");
    assert("pnpm"@.len() != "python"@.len());
    reveal_strlit("bun");
    assert("bun"@.len() != "python"@.len());
}

#[verifier::rlimit(100)]
proof fn lemma_alias_10()
    ensures
        alias_target("rust"@) == Some("Rust"@),
{
    reveal_strlit("rust");
    reveal_strlit("Rust");
    reveal_strlit("macos");
    assert("macos"@.len() != "rust"@.len());
    reveal_strlit("osx");
    assert("osx"@.len() != "rust"@.len());
    reveal_strlit("mac");
    assert("mac"@.len() != "rust"@.len());
    reveal_strlit("darwin");
    assert("darwin"@.len() != "rust"@.len());
    reveal_strlit("apple");
    assert("apple"@.len() != "rust"@.len());
    reveal_strlit("vscode");
    assert("vscode"@.len() != "rust"@.len());
    reveal_strlit("visualstudiocode");
    assert("visualstudiocode"@.len() != "rust"@.len());
    reveal_strlit("vs-code");
    assert("vs-code"@.len() != "rust"@.len());
    reveal_strlit("code");
    assert("code"@[0] != "rust"@[0]);
    reveal_strlit("idea");
    assert("idea"@[0] != "rust"@[0]);
    reveal_strlit("intellij");
    assert("intellij"@.len() != "rust"@.len());
    reveal_strlit("jetbrains");
    assert("jetbrains"@.len() != "rust"@.len());
    reveal_strlit("pycharm");
    assert("pycharm"@.len() != "rust"@.len());
    reveal_strlit("clion");
    assert("clion"@.len() != "rust"@.len());
    reveal_strlit("webstorm");
    assert("webstorm"@.len() != "rust"@.len());
    reveal_strlit("goland");
    assert("goland"@.len() != "rust"@.len());
    reveal_strlit("rider");
    assert("rider"@.len() != "rust"@.len());
    reveal_strlit("phpstorm");
    assert("phpstorm"@.len() != "rust"@.len());
    reveal_strlit("rubymine");
    assert("rubymine"@.len() != "rust"@.len());
    reveal_strlit("windows");
    assert("windows"@.len() != "rust"@.len());
    reveal_strlit("win");
    assert("win"@.len() != "rust"@.len());
    reveal_strlit("win32");
    assert("win32"@.len() != "rust"@.len());
    reveal_strlit("win64");
    assert("win64"@.len() != "rust"@.len());
    reveal_strlit("linux");
    assert("linux"@.len() != "rust"@.len());
    reveal_strlit("vim");
    assert("vim"@.len() != "rust"@.len());
    reveal_strlit("nvim");
    assert("nvim"@[0] != "rust"@[0]);
    reveal_strlit("neovim");
    assert("neovim"@.len() != "rust"@.len());
    reveal_strlit("emacs");
    assert("emacs"@.len() != "rust"@.len());
    reveal_strlit("sublime");
    assert("sublime"@.len() != "rust"@.len());
    reveal_strlit("sublimetext");
    assert("sublimetext"@.len() != "rust"@.len());
    reveal_strlit("eclipse");
    assert("eclipse"@.len() != "rust"@.len());
    reveal_strlit("xcode");
    assert("xcode"@.len() != "rust"@.len());
    reveal_strlit("node");
    assert("node"@[0] != "rust"@[0]);
    reveal_strlit("nodejs");
    assert("nodejs"@.len() != "rust"@.len());
    reveal_strlit("npm");
    assert("npm"@.len() != "rust"@.len());
    reveal_strlit("yarn");
    assert("yarn"@[0] != "rust"@[0]);
    reveal_strlit("pnpm");
    assert("pnpm"@[0] != "rust"@[0]);
    reveal_strlit("bun");
    assert("bun"@.len() != "rust"@.len());
    reveal_strlit("python");
    assert("python"@.len() != "rust"@.len());
    reveal_strlit("py");
    assert("py"@.len() != "rust"@.len());
    reveal_strlit("pip");
    assert("pip"@.len() != "rust"@.len());
    reveal_strlit("venv");
    assert("venv"@[0] != "rust"@[0]);
    reveal_strlit("conda");
    assert("conda"@.len() != "rust"@.len());
}

#[verifier::rlimit(100)]
proof fn lemma_alias_11()
    ensures
        alias_target("go"@) == Some("Go"@),
{
    reveal_strlit("go");
    reveal_strlit("Go");
    reveal_strlit("macos");
    assert("macos"@.len() != "go"@.len());
    reveal_strlit("osx");
    assert("osx"@.len() != "go"@.len());
    reveal_strlit("mac");
    assert("mac"@.len() != "go"@.len());
    reveal_strlit("darwin");
    assert("darwin"@.len() != "go"@.len());
    reveal_strlit("apple");
    assert("apple"@.len() != "go"@.len());
    reveal_strlit("vscode");
    assert("vscode"@.len() != "go"@.len());
    reveal_strlit("visualstudiocode");
    assert("visualstudiocode"@.len() != "go"@.len());
    reveal_strlit("vs-code");
    assert("vs-code"@.len() != "go"@.len());
    reveal_strlit("code");
    assert("code"@.len() != "go"@.len());
    reveal_strlit("idea");
    assert("idea"@.len() != "go"@.len());
    reveal_strlit("intellij");
    assert("intellij"@.len() != "go"@.len());
    reveal_strlit("jetbrains");
    assert("jetbrains"@.len() != "go"@.len());
    reveal_strlit("pycharm");
    assert("pycharm"@.len() != "go"@.len());
    reveal_strlit("clion");
    assert("clion"@.len() != "go"@.len());
    reveal_strlit("webstorm");
    assert("webstorm"@.len() != "go"@.len());
    reveal_strlit("goland");
    assert("goland"@.len() != "go"@.len());
    reveal_strlit("rider");
    assert("rider"@.len() != "go"@.len());
    reveal_strlit("phpstorm");
    assert("phpstorm"@.len() != "go"@.len());
    reveal_strlit("rubymine");
    assert("rubymine"@.len() != "go"@.len());
    reveal_strlit("windows");
    assert("windows"@.len() != "go"@.len());
    reveal_strlit("win");
    assert("win"@.len() != "go"@.len());
    reveal_strlit("win32");
    assert("win32"@.len() != "go"@.len());
    reveal_strlit("win64");
    assert("win64"@.len() != "go"@.len());
    reveal_strlit("linux");
    assert("linux"@.len() != "go"@.len());
    reveal_strlit("vim");
    assert("vim"@.len() != "go"@.len());
    reveal_strlit("nvim");
    assert("nvim"@.len() != "go"@.len());
    reveal_strlit("neovim");
    assert("neovim"@.len() != "go"@.len());
    reveal_strlit("emacs");
    assert("emacs"@.len() != "go"@.len());
    reveal_strlit("sublime");
    assert("sublime"@.len() != "go"@.len());
    reveal_strlit("sublimetext");
    assert("sublimetext"@.len() != "go"@.len());
    reveal_strlit("eclipse");
    assert("eclipse"@.len() != "go"@.len());
    reveal_strlit("xcode");
    assert("xcode"@.len() != "go"@.len());
    reveal_strlit("node");
    assert("node"@.len() != "go"@.len());
    reveal_strlit("nodejs");
    assert("nodejs"@.len() != "go"@.len());
    reveal_strlit("npm");
    assert("npm"@.len() != "go"@.len());
    reveal_strlit("yarn");
    assert("yarn"@.len() != "go"@.len());
    reveal_strlit("pnpm");
    assert("pnpm"@.len() != "go"@.len());
    reveal_strlit("bun");
    assert("bun"@.len() != "go"@.len());
    reveal_strlit("python");
    assert("python"@.len() != "go"@.len());
    reveal_strlit("py");
    assert("py"@[0] != "go"@[0]);
    reveal_strlit("pip");
    assert("pip"@.len() != "go"@.len());
    reveal_strlit("venv");
    assert("venv"@.len() != "go"@.len());
    reveal_strlit("conda");
    assert("conda"@.len() != "go"@.len());
    reveal_strlit("rust");
    assert("rust"@.len() != "go"@.len());
    reveal_strlit("rs");
    assert("rs"@[0] != "go"@[0]);
    reveal_strlit("cargo");
    assert("cargo"@.len() != "go"@.len());
}

#[verifier::rlimit(100)]
proof fn lemma_alias_12()
    ensures
        alias_target("java"@) == Some("Java"@),
{
    reveal_strlit("java");
    reveal_strlit("Java");
    reveal_strlit("macos");
    assert("macos"@.len() != "java"@.len());
    reveal_strlit("osx");
    assert("osx"@.len() != "java"@.len());
    reveal_strlit("mac");
    assert("mac"@.len() != "java"@.len());
    reveal_strlit("darwin");
    assert("darwin"@.len() != "java"@.len());
    reveal_strlit("apple");
    assert("apple"@.len() != "java"@.len());
    reveal_strlit("vscode");
    assert("vscode"@.len() != "java"@.len());
    reveal_strlit("visualstudiocode");
    assert("visualstudiocode"@.len() != "java"@.len());
    reveal_strlit("vs-code");
    assert("vs-code"@.len() != "java"@.len());
    reveal_strlit("code");
    assert("code"@[0] != "java"@[0]);
    reveal_strlit("idea");
    assert("idea"@[0] != "java"@[0]);
    reveal_strlit("intellij");
    assert("intellij"@.len() != "java"@.len());
    reveal_strlit("jetbrains");
    assert("jetbrains"@.len() != "java"@.len());
    reveal_strlit("pycharm");
    assert("pycharm"@.len() != "java"@.len());
    reveal_strlit("clion");
    assert("clion"@.len() != "java"@.len());
    reveal_strlit("webstorm");
    assert("webstorm"@.len() != "java"@.len());
    reveal_strlit("goland");
    assert("goland"@.len() != "java"@.len());
    reveal_strlit("rider");
    assert("rider"@.len() != "java"@.len());
    reveal_strlit("phpstorm");
    assert("phpstorm"@.len() != "java"@.len());
    reveal_strlit("rubymine");
    assert("rubymine"@.len() != "java"@.len());
    reveal_strlit("windows");
    assert("windows"@.len() != "java"@.len());
    reveal_strlit("win");
    assert("win"@.len() != "java"@.len());
    reveal_strlit("win32");
    assert("win32"@.len() != "java"@.len());
    reveal_strlit("win64");
    assert("win64"@.len() != "java"@.len());
    reveal_strlit("linux");
    assert("linux"@.len() != "java"@.len());
    reveal_strlit("vim");
    assert("vim"@.len() != "java"@.len());
    reveal_strlit("nvim");
    assert("nvim"@[0] != "java"@[0]);
    reveal_strlit("neovim");
    assert("neovim"@.len() != "java"@.len());
    reveal_strlit("emacs");
    assert("emacs"@.len() != "java"@.len());
    reveal_strlit("sublime");
    assert("sublime"@.len() != "java"@.len());
    reveal_strlit("sublimetext");
    assert("sublimetext"@.len() != "java"@.len());
    reveal_strlit("eclipse");
    assert("eclipse"@.len() != "java"@.len());
    reveal_strlit("xcode");
    assert("xcode"@.len() != "java"@.len());
    reveal_strlit("node");
    assert("node"@[0] != "java"@[0]);
    reveal_strlit("nodejs");
    assert("nodejs"@.len() != "java"@.len());
    reveal_strlit("npm");
    assert("npm"@.len() != "java"@.len());
    reveal_strlit("yarn");
    assert("yarn"@[0] != "java"@[0]);
    reveal_strlit("pnpm");
    assert("pnpm"@[0] != "java"@[0]);
    reveal_strlit("bun");
    assert("bun"@.len() != "java"@.len());
    reveal_strlit("python");
    assert("python"@.len() != "java"@.len());
    reveal_strlit("py");
    assert("py"@.len() != "java"@.len());
    reveal_strlit("pip");
    assert("pip"@.len() != "java"@.len());
    reveal_strlit("venv");
    assert("venv"@[0] != "java"@[0]);
    reveal_strlit("conda");
    assert("conda"@.len() != "java"@.len());
    reveal_strlit("rust");
    assert("rust"@[0] != "java"@[0]);
    reveal_strlit("rs");
    assert("rs"@.len() != "java"@.len());
    reveal_strlit("cargo");
    assert("cargo"@.len() != "java"@.len());
    reveal_strlit("go");
    assert("go"@.len() != "java"@.len());
    reveal_strlit("golang");
    assert("golang"@.len() != "java"@.len());
}

#[verifier::rlimit(100)]
proof fn lemma_alias_13()
    ensures
        alias_target("c++"@) == Some("C++"@),
{
    reveal_strlit("c++");
    reveal_strlit("C++");
    reveal_strlit("macos");
    assert("macos"@.len() != "c++"@.len());
    reveal_strlit("osx");
    assert("osx"@[0] != "c++"@[0]);
    reveal_strlit("mac");
    assert("mac"@[0] != "c++"@[0]);
    reveal_strlit("darwin");
    assert("darwin"@.len() != "c++"@.len());
    reveal_strlit("apple");
    assert("apple"@.len() != "c++"@.len());
    reveal_strlit("vscode");
    assert("vscode"@.len() != "c++"@.len());
    reveal_strlit("visualstudiocode");
    assert("visualstudiocode"@.len() != "c++"@.len());
    reveal_strlit("vs-code");
    assert("vs-code"@.len() != "c++"@.len());
    reveal_strlit("code");
    assert("code"@.len() != "c++"@.len());
    reveal_strlit("idea");
    assert("idea"@.len() != "c++"@.len());
    reveal_strlit("intellij");
    assert("intellij"@.len() != "c++"@.len());
    reveal_strlit("jetbrains");
    assert("jetbrains"@.len() != "c++"@.len());
    reveal_strlit("pycharm");
    assert("pycharm"@.len() != "c++"@.len());
    reveal_strlit("clion");
    assert("clion"@.len() != "c++"@.len());
    reveal_strlit("webstorm");
    assert("webstorm"@.len() != "c++"@.len());
    reveal_strlit("goland");
    assert("goland"@.len() != "c++"@.len());
    reveal_strlit("rider");
    assert("rider"@.len() != "c++"@.len());
    reveal_strlit("phpstorm");
    assert("phpstorm"@.len() != "c++"@.len());
    reveal_strlit("rubymine");
    assert("rubymine"@.len() != "c++"@.len());
    reveal_strlit("windows");
    assert("windows"@.len() != "c++"@.len());
    reveal_strlit("win");
    assert("win"@[0] != "c++"@[0]);
    reveal_strlit("win32");
    assert("win32"@.len() != "c++"@.len());
    reveal_strlit("win64");
    assert("win64"@.len() != "c++"@.len());
    reveal_strlit("linux");
    assert("linux"@.len() != "c++"@.len());
    reveal_strlit("vim");
    assert("vim"@[0] != "c++"@[0]);
    reveal_strlit("nvim");
    assert("nvim"@.len() != "c++"@.len());
    reveal_strlit("neovim");
    assert("neovim"@.len() != "c++"@.len());
    reveal_strlit("emacs");
    assert("emacs"@.len() != "c++"@.len());
    reveal_strlit("sublime");
    assert("sublime"@.len() != "c++"@.len());
    reveal_strlit("sublimetext");
    assert("sublimetext"@.len() != "c++"@.len());
    reveal_strlit("eclipse");
    assert("eclipse"@.len() != "c++"@.len());
    reveal_strlit("xcode");
    assert("xcode"@.len() != "c++"@.len());
    reveal_strlit("node");
    assert("node"@.len() != "c++"@.len());
    reveal_strlit("nodejs");
    assert("nodejs"@.len() != "c++"@.len());
    reveal_strlit("npm");
    assert("npm"@[0] != "c++"@[0]);
    reveal_strlit("yarn");
    assert("yarn"@.len() != "c++"@.len());
    reveal_strlit("pnpm");
    assert("pnpm"@.len() != "c++"@.len());
    reveal_strlit("bun");
    assert("bun"@[0] != "c++"@[0]);
    reveal_strlit("python");
    assert("python"@.len() != "c++"@.len());
    reveal_strlit("py");
    assert("py"@.len() != "c++"@.len());
    reveal_strlit("pip");
    assert("pip"@[0] != "c++"@[0]);
    reveal_strlit("venv");
    assert("venv"@.len() != "c++"@.len());
    reveal_strlit("conda");
    assert("conda"@.len() != "c++"@.len());
    reveal_strlit("rust");
    assert("rust"@.len() != "c++"@.len());
    reveal_strlit("rs");
    assert("rs"@.len() != "c++"@.len());
    reveal_strlit("cargo");
    assert("cargo"@.len() != "c++"@.len());
    reveal_strlit("go");
    assert("go"@.len() != "c++"@.len());
    reveal_strlit("golang");
    assert("golang"@.len() != "c++"@.len());
    reveal_strlit("java");
    assert("java"@.len() != "c++"@.len());
    reveal_strlit("jvm");
    assert("jvm"@[0] != "c++"@[0]);
    reveal_strlit("maven");
    assert("maven"@.len() != "c++"@.len());
    reveal_strlit("mvn");
    assert("mvn"@[0] != "c++"@[0]);
    reveal_strlit("gradle");
    assert("gradle"@.len() != "c++"@.len());
}

#[verifier::rlimit(100)]
proof fn lemma_alias_14()
    ensures
        alias_target("cpp"@) == Some("C++"@),
{
    reveal_strlit("cpp");
    reveal_strlit("C++");
    reveal_strlit("macos");
    assert("macos"@.len() != "cpp"@.len());
    reveal_strlit("osx");
    assert("osx"@[0] != "cpp"@[0]);
    reveal_strlit("mac");
    assert("mac"@[0] != "cpp"@[0]);
    reveal_strlit("darwin");
    assert("darwin"@.len() != "cpp"@.len());
    reveal_strlit("apple");
    assert("apple"@.len() != "cpp"@.len());
    reveal_strlit("vscode");
    assert("vscode"@.len() != "cpp"@.len());
    reveal_strlit("visualstudiocode");
    assert("visualstudiocode"@.len() != "cpp"@.len());
    reveal_strlit("vs-code");
    assert("vs-code"@.len() != "cpp"@.len());
    reveal_strlit("code");
    assert("code"@.len() != "cpp"@.len());
    reveal_strlit("idea");
    assert("idea"@.len() != "cpp"@.len());
    reveal_strlit("intellij");
    assert("intellij"@.len() != "cpp"@.len());
    reveal_strlit("jetbrains");
    assert("jetbrains"@.len() != "cpp"@.len());
    reveal_strlit("pycharm");
    assert("pycharm"@.len() != "cpp"@.len());
    reveal_strlit("clion");
    assert("clion"@.len() != "cpp"@.len());
    reveal_strlit("webstorm");
    assert("webstorm"@.len() != "cpp"@.len());
    reveal_strlit("goland");
    assert("goland"@.len() != "cpp"@.len());
    reveal_strlit("rider");
    assert("rider"@.len() != "cpp"@.len());
    reveal_strlit("phpstorm");
    assert("phpstorm"@.len() != "cpp"@.len());
    reveal_strlit("rubymine");
    assert("rubymine"@.len() != "cpp"@.len());
    reveal_strlit("windows");
    assert("windows"@.len() != "cpp"@.len());
    reveal_strlit("win");
    assert("win"@[0] != "cpp"@[0]);
    reveal_strlit("win32");
    assert("win32"@.len() != "cpp"@.len());
    reveal_strlit("win64");
    assert("win64"@.len() != "cpp"@.len());
    reveal_strlit("linux");
    assert("linux"@.len() != "cpp"@.len());
    reveal_strlit("vim");
    assert("vim"@[0] != "cpp"@[0]);
    reveal_strlit("nvim");
    assert("nvim"@.len() != "cpp"@.len());
    reveal_strlit("neovim");
    assert("neovim"@.len() != "cpp"@.len());
    reveal_strlit("emacs");
    assert("emacs"@.len() != "cpp"@.len());
    reveal_strlit("sublime");
    assert("sublime"@.len() != "cpp"@.len());
    reveal_strlit("sublimetext");
    assert("sublimetext"@.len() != "cpp"@.len());
    reveal_strlit("eclipse");
    assert("eclipse"@.len() != "cpp"@.len());
    reveal_strlit("xcode");
    assert("xcode"@.len() != "cpp"@.len());
    reveal_strlit("node");
    assert("node"@.len() != "cpp"@.len());
    reveal_strlit("nodejs");
    assert("nodejs"@.len() != "cpp"@.len());
    reveal_strlit("npm");
    assert("npm"@[0] != "cpp"@[0]);
    reveal_strlit("yarn");
    assert("yarn"@.len() != "cpp"@.len());
    reveal_strlit("pnpm");
    assert("pnpm"@.len() != "cpp"@.len());
    reveal_strlit("bun");
    assert("bun"@[0] != "cpp"@[0]);
    reveal_strlit("python");
    assert("python"@.len() != "cpp"@.len());
    reveal_strlit("py");
    assert("py"@.len() != "cpp"@.len());
    reveal_strlit("pip");
    assert("pip"@[0] != "cpp"@[0]);
    reveal_strlit("venv");
    assert("venv"@.len() != "cpp"@.len());
    reveal_strlit("conda");
    assert("conda"@.len() != "cpp"@.len());
    reveal_strlit("rust");
    assert("rust"@.len() != "cpp"@.len());
    reveal_strlit("rs");
    assert("rs"@.len() != "cpp"@.len());
    reveal_strlit("cargo");
    assert("cargo"@.len() != "cpp"@.len());
    reveal_strlit("go");
    assert("go"@.len() != "cpp"@.len());
    reveal_strlit("golang");
    assert("golang"@.len() != "cpp"@.len());
    reveal_strlit("java");
    assert("java"@.len() != "cpp"@.len());
    reveal_strlit("jvm");
    assert("jvm"@[0] != "cpp"@[0]);
    reveal_strlit("maven");
    assert("maven"@.len() != "cpp"@.len());
    reveal_strlit("mvn");
    assert("mvn"@[0] != "cpp"@[0]);
    reveal_strlit("gradle");
    assert("gradle"@.len() != "cpp"@.len());
    reveal_strlit("c++");
    assert("c++"@[1] != "cpp"@[1]);
}

#[verifier::rlimit(100)]
proof fn lemma_alias_15()
    ensures
        alias_target("c"@) == Some("C"@),
{
    reveal_strlit("c");
    reveal_strlit("C");
    reveal_strlit("macos");
    assert("macos"@.len() != "c"@.len());
    reveal_strlit("osx");
    assert("osx"@.len() != "c"@.len());
    reveal_strlit("mac");
    assert("mac"@.len() != "c"@.len());
    reveal_strlit("darwin");
    assert("darwin"@.len() != "c"@.len());
    reveal_strlit("apple");
    assert("apple"@.len() != "c"@.len());
    reveal_strlit("vscode");
    assert("vscode"@.len() != "c"@.len());
    reveal_strlit("visualstudiocode");
    assert("visualstudiocode"@.len() != "c"@.len());
    reveal_strlit("vs-code");
    assert("vs-code"@.len() != "c"@.len());
    reveal_strlit("code");
    assert("code"@.len() != "c"@.len());
    reveal_strlit("idea");
    assert("idea"@.len() != "c"@.len());
    reveal_strlit("intellij");
    assert("intellij"@.len() != "c"@.len());
    reveal_strlit("jetbrains");
    assert("jetbrains"@.len() != "c"@.len());
    reveal_strlit("pycharm");
    assert("pycharm"@.len() != "c"@.len());
    reveal_strlit("clion");
    assert("clion"@.len() != "c"@.len());
    reveal_strlit("webstorm");
    assert("webstorm"@.len() != "c"@.len());
    reveal_strlit("goland");
    assert("goland"@.len() != "c"@.len());
    reveal_strlit("rider");
    assert("rider"@.len() != "c"@.len());
    reveal_strlit("phpstorm");
    assert("phpstorm"@.len() != "c"@.len());
    reveal_strlit("rubymine");
    assert("rubymine"@.len() != "c"@.len());
    reveal_strlit("windows");
    assert("windows"@.len() != "c"@.len());
    reveal_strlit("win");
    assert("win"@.len() != "c"@.len());
    reveal_strlit("win32");
    assert("win32"@.len() != "c"@.len());
    reveal_strlit("win64");
    assert("win64"@.len() != "c"@.len());
    reveal_strlit("linux");
    assert("linux"@.len() != "c"@.len());
    reveal_strlit("vim");
    assert("vim"@.len() != "c"@.len());
    reveal_strlit("nvim");
    assert("nvim"@.len() != "c"@.len());
    reveal_strlit("neovim");
    assert("neovim"@.len() != "c"@.len());
    reveal_strlit("emacs");
    assert("emacs"@.len() != "c"@.len());
    reveal_strlit("sublime");
    assert("sublime"@.len() != "c"@.len());
    reveal_strlit("sublimetext");
    assert("sublimetext"@.len() != "c"@.len());
    reveal_strlit("eclipse");
    assert("eclipse"@.len() != "c"@.len());
    reveal_strlit("xcode");
    assert("xcode"@.len() != "c"@.len());
    reveal_strlit("node");
    assert("node"@.len() != "c"@.len());
    reveal_strlit("nodejs");
    assert("nodejs"@.len() != "c"@.len());
    reveal_strlit("npm");
    assert("npm"@.len() != "c"@.len());
    reveal_strlit("yarn");
    assert("yarn"@.len() != "c"@.len());
    reveal_strlit("pnpm");
    assert("pnpm"@.len() != "c"@.len());
    reveal_strlit("bun");
    assert("bun"@.len() != "c"@.len());
    reveal_strlit("python");
    assert("python"@.len() != "c"@.len());
    reveal_strlit("py");
    assert("py"@.len() != "c"@.len());
    reveal_strlit("pip");
    assert("pip"@.len() != "c"@.len());
    reveal_strlit("venv");
    assert("venv"@.len() != "c"@.len());
    reveal_strlit("conda");
    assert("conda"@.len() != "c"@.len());
    reveal_strlit("rust");
    assert("rust"@.len() != "c"@.len());
    reveal_strlit("rs");
    assert("rs"@.len() != "c"@.len());
    reveal_strlit("cargo");
    assert("cargo"@.len() != "c"@.len());
    reveal_strlit("go");
    assert("go"@.len() != "c"@.len());
    reveal_strlit("golang");
    assert("golang"@.len() != "c"@.len());
    reveal_strlit("java");
    assert("java"@.len() != "c"@.len());
    reveal_strlit("jvm");
    assert("jvm"@.len() != "c"@.len());
    reveal_strlit("maven");
    assert("maven"@.len() != "c"@.len());
    reveal_strlit("mvn");
    assert("mvn"@.len() != "c"@.len());
    reveal_strlit("gradle");
    assert("gradle"@.len() != "c"@.len());
    reveal_strlit("c++");
    assert("c++"@.len() != "c"@.len());
    reveal_strlit("cpp");
    assert("cpp"@.len() != "c"@.len());
    reveal_strlit("cplusplus");
    assert("cplusplus"@.len() != "c"@.len());
}

#[verifier::rlimit(100)]
proof fn lemma_alias_16()
    ensures
        alias_target("csharp"@) == Some("VisualStudio"@),
{
    reveal_strlit("csharp");
    reveal_strlit("VisualStudio");
    reveal_strlit("macos");
    assert("macos"@.len() != "csharp"@.len());
    reveal_strlit("osx");
    assert("osx"@.len() != "csharp"@.len());
    reveal_strlit("mac");
    assert("mac"@.len() != "csharp"@.len());
    reveal_strlit("darwin");
    assert("darwin"@[0] != "csharp"@[0]);
    reveal_strlit("apple");
    assert("apple"@.len() != "csharp"@.len());
    reveal_strlit("vscode");
    assert("vscode"@[0] != "csharp"@[0]);
    reveal_strlit("visualstudiocode");
    assert("visualstudiocode"@.len() != "csharp"@.len());
    reveal_strlit("vs-code");
    assert("vs-code"@.len() != "csharp"@.len());
    reveal_strlit("code");
    assert("code"@.len() != "csharp"@.len());
    reveal_strlit("idea");
    assert("idea"@.len() != "csharp"@.len());
    reveal_strlit("intellij");
    assert("intellij"@.len() != "csharp"@.len());
    reveal_strlit("jetbrains");
    assert("jetbrains"@.len() != "csharp"@.len());
    reveal_strlit("pycharm");
    assert("pycharm"@.len() != "csharp"@.len());
    reveal_strlit("clion");
    assert("clion"@.len() != "csharp"@.len());
    reveal_strlit("webstorm");
    assert("webstorm"@.len() != "csharp"@.len());
    reveal_strlit("goland");
    assert("goland"@[0] != "csharp"@[0]);
    reveal_strlit("rider");
    assert("rider"@.len() != "csharp"@.len());
    reveal_strlit("phpstorm");
    assert("phpstorm"@.len() != "csharp"@.len());
    reveal_strlit("rubymine");
    assert("rubymine"@.len() != "csharp"@.len());
    reveal_strlit("windows");
    assert("windows"@.len() != "csharp"@.len());
    reveal_strlit("win");
    assert("win"@.len() != "csharp"@.len());
    reveal_strlit("win32");
    assert("win32"@.len() != "csharp"@.len());
    reveal_strlit("win64");
    assert("win64"@.len() != "csharp"@.len());
    reveal_strlit("linux");
    assert("linux"@.len() != "csharp"@.len());
    reveal_strlit("vim");
    assert("vim"@.len() != "csharp"@.len());
    reveal_strlit("nvim");
    assert("nvim"@.len() != "csharp"@.len());
    reveal_strlit("neovim");
    assert("neovim"@[0] != "csharp"@[0]);
    reveal_strlit("emacs");
    assert("emacs"@.len() != "csharp"@.len());
    reveal_strlit("sublime");
    assert("sublime"@.len() != "csharp"@.len());
    reveal_strlit("sublimetext");
    assert("sublimetext"@.len() != "csharp"@.len());
    reveal_strlit("eclipse");
    assert("eclipse"@.len() != "csharp"@.len());
    reveal_strlit("xcode");
    assert("xcode"@.len() != "csharp"@.len());
    reveal_strlit("node");
    assert("node"@.len() != "csharp"@.len());
    reveal_strlit("nodejs");
    assert("nodejs"@[0] != "csharp"@[0]);
    reveal_strlit("npm");
    assert("npm"@.len() != "csharp"@.len());
    reveal_strlit("yarn");
    assert("yarn"@.len() != "csharp"@.len());
    reveal_strlit("pnpm");
    assert("pnpm"@.len() != "csharp"@.len());
    reveal_strlit("bun");
    assert("bun"@.len() != "csharp"@.len());
    reveal_strlit("python");
    assert("python"@[0] != "csharp"@[0]);
    reveal_strlit("py");
    assert("py"@.len() != "csharp"@.len());
    reveal_strlit("pip");
    assert("pip"@.len() != "csharp"@.len());
    reveal_strlit("venv");
    assert("venv"@.len() != "csharp"@.len());
    reveal_strlit("conda");
    assert("conda"@.len() != "csharp"@.len());
    reveal_strlit("rust");
    assert("rust"@.len() != "csharp"@.len());
    reveal_strlit("rs");
    assert("rs"@.len() != "csharp"@.len());
    reveal_strlit("cargo");
    assert("cargo"@.len() != "csharp"@.len());
    reveal_strlit("go");
    assert("go"@.len() != "csharp"@.len());
    reveal_strlit("golang");
    assert("golang"@[0] != "csharp"@[0]);
    reveal_strlit("java");
    assert("java"@.len() != "csharp"@.len());
    reveal_strlit("jvm");
    assert("jvm"@.len() != "csharp"@.len());
    reveal_strlit("maven");
    assert("maven"@.len() != "csharp"@.len());
    reveal_strlit("mvn");
    assert("mvn"@.len() != "csharp"@.len());
    reveal_strlit("gradle");
    assert("gradle"@[0] != "csharp"@[0]);
    reveal_strlit("c++");
    assert("c++"@.len() != "csharp"@.len());
    reveal_strlit("cpp");
    assert("cpp"@.len() != "csharp"@.len());
    reveal_strlit("cplusplus");
    assert("cplusplus"@.len() != "csharp"@.len());
    reveal_strlit("c");
    assert("c"@.len() != "csharp"@.len());
    reveal_strlit("c#");
    assert("c#"@.len() != "csharp"@.len());
}

#[verifier::rlimit(100)]
proof fn lemma_alias_17()
    ensures
        alias_target("r"@) == Some("R"@),
{
    reveal_strlit("r");
    reveal_strlit("R");
    reveal_strlit("macos");
    assert("macos"@.len() != "r"@.len());
    reveal_strlit("osx");
    assert("osx"@.len() != "r"@.len());
    reveal_strlit("mac");
    assert("mac"@.len() != "r"@.len());
    reveal_strlit("darwin");
    assert("darwin"@.len() != "r"@.len());
    reveal_strlit("apple");
    assert("apple"@.len() != "r"@.len());
    reveal_strlit("vscode");
    assert("vscode"@.len() != "r"@.len());
    reveal_strlit("visualstudiocode");
    assert("visualstudiocode"@.len() != "r"@.len());
    reveal_strlit("vs-code");
    assert("vs-code"@.len() != "r"@.len());
    reveal_strlit("code");
    assert("code"@.len() != "r"@.len());
    reveal_strlit("idea");
    assert("idea"@.len() != "r"@.len());
    reveal_strlit("intellij");
    assert("intellij"@.len() != "r"@.len());
    reveal_strlit("jetbrains");
    assert("jetbrains"@.len() != "r"@.len());
    reveal_strlit("pycharm");
    assert("pycharm"@.len() != "r"@.len());
    reveal_strlit("clion");
    assert("clion"@.len() != "r"@.len());
    reveal_strlit("webstorm");
    assert("webstorm"@.len() != "r"@.len());
    reveal_strlit("goland");
    assert("goland"@.len() != "r"@.len());
    reveal_strlit("rider");
    assert("rider"@.len() != "r"@.len());
    reveal_strlit("phpstorm");
    assert("phpstorm"@.len() != "r"@.len());
    reveal_strlit("rubymine");
    assert("rubymine"@.len() != "r"@.len());
    reveal_strlit("windows");
    assert("windows"@.len() != "r"@.len());
    reveal_strlit("win");
    assert("win"@.len() != "r"@.len());
    reveal_strlit("win32");
    assert("win32"@.len() != "r"@.len());
    reveal_strlit("win64");
    assert("win64"@.len() != "r"@.len());
    reveal_strlit("linux");
    assert("linux"@.len() != "r"@.len());
    reveal_strlit("vim");
    assert("vim"@.len() != "r"@.len());
    reveal_strlit("nvim");
    assert("nvim"@.len() != "r"@.len());
    reveal_strlit("neovim");
    assert("neovim"@.len() != "r"@.len());
    reveal_strlit("emacs");
    assert("emacs"@.len() != "r"@.len());
    reveal_strlit("sublime");
    assert("sublime"@.len() != "r"@.len());
    reveal_strlit("sublimetext");
    assert("sublimetext"@.len() != "r"@.len());
    reveal_strlit("eclipse");
    assert("eclipse"@.len() != "r"@.len());
    reveal_strlit("xcode");
    assert("xcode"@.len() != "r"@.len());
    reveal_strlit("node");
    assert("node"@.len() != "r"@.len());
    reveal_strlit("nodejs");
    assert("nodejs"@.len() != "r"@.len());
    reveal_strlit("npm");
    assert("npm"@.len() != "r"@.len());
    reveal_strlit("yarn");
    assert("yarn"@.len() != "r"@.len());
    reveal_strlit("pnpm");
    assert("pnpm"@.len() != "r"@.len());
    reveal_strlit("bun");
    assert("bun"@.len() != "r"@.len());
    reveal_strlit("python");
    assert("python"@.len() != "r"@.len());
    reveal_strlit("py");
    assert("py"@.len() != "r"@.len());
    reveal_strlit("pip");
    assert("pip"@.len() != "r"@.len());
    reveal_strlit("venv");
    assert("venv"@.len() != "r"@.len());
    reveal_strlit("conda");
    assert("conda"@.len() != "r"@.len());
    reveal_strlit("rust");
    assert("rust"@.len() != "r"@.len());
    reveal_strlit("rs");
    assert("rs"@.len() != "r"@.len());
    reveal_strlit("cargo");
    assert("cargo"@.len() != "r"@.len());
    reveal_strlit("go");
    assert("go"@.len() != "r"@.len());
    reveal_strlit("golang");
    assert("golang"@.len() != "r"@.len());
    reveal_strlit("java");
    assert("java"@.len() != "r"@.len());
    reveal_strlit("jvm");
    assert("jvm"@.len() != "r"@.len());
    reveal_strlit("maven");
    assert("maven"@.len() != "r"@.len());
    reveal_strlit("mvn");
    assert("mvn"@.len() != "r"@.len());
    reveal_strlit("gradle");
    assert("gradle"@.len() != "r"@.len());
    reveal_strlit("c++");
    assert("c++"@.len() != "r"@.len());
    reveal_strlit("cpp");
    assert("cpp"@.len() != "r"@.len());
    reveal_strlit("cplusplus");
    assert("cplusplus"@.len() != "r"@.len());
    reveal_strlit("c");
    assert("c"@[0] != "r"@[0]);
    reveal_strlit("c#");
    assert("c#"@.len() != "r"@.len());
    reveal_strlit("csharp");
    assert("csharp"@.len() != "r"@.len());
    reveal_strlit("cs");
    assert("cs"@.len() != "r"@.len());
    reveal_strlit("dotnet");
    assert("dotnet"@.len() != "r"@.len());
    reveal_strlit("ruby");
    assert("ruby"@.len() != "r"@.len());
    reveal_strlit("rb");
    assert("rb"@.len() != "r"@.len());
    reveal_strlit("gem");
    assert("gem"@.len() != "r"@.len());
    reveal_strlit("rails");
    assert("rails"@.len() != "r"@.len());
    reveal_strlit("php");
    assert("php"@.len() != "r"@.len());
    reveal_strlit("composer");
    assert("composer"@.len() != "r"@.len());
    reveal_strlit("swift");
    assert("swift"@.len() != "r"@.len());
    reveal_strlit("kotlin");
    assert("kotlin"@.len() != "r"@.len());
    reveal_strlit("kt");
    assert("kt"@.len() != "r"@.len());
    reveal_strlit("dart");
    assert("dart"@.len() != "r"@.len());
    reveal_strlit("flutter");
    assert("flutter"@.len() != "r"@.len());
    reveal_strlit("android");
    assert("android"@.len() != "r"@.len());
    reveal_strlit("unity");
    assert("unity"@.len() != "r"@.len());
    reveal_strlit("unreal");
    assert("unreal"@.len() != "r"@.len());
    reveal_strlit("unrealengine");
    assert("unrealengine"@.len() != "r"@.len());
    reveal_strlit("ue4");
    assert("ue4"@.len() != "r"@.len());
    reveal_strlit("ue5");
    assert("ue5"@.len() != "r"@.len());
    reveal_strlit("elixir");
    assert("elixir"@.len() != "r"@.len());
    reveal_strlit("ex");
    assert("ex"@.len() != "r"@.len());
    reveal_strlit("phoenix");
    assert("phoenix"@.len() != "r"@.len());
    reveal_strlit("haskell");
    assert("haskell"@.len() != "r"@.len());
    reveal_strlit("hs");
    assert("hs"@.len() != "r"@.len());
    reveal_strlit("cabal");
    assert("cabal"@.len() != "r"@.len());
    reveal_strlit("stack");
    assert("stack"@.len() != "r"@.len());
    reveal_strlit("lua");
    assert("lua"@.len() != "r"@.len());
}

/// The shorthands resolve to their documented templates: `macos`, `mac` and `osx` to
/// `Global/macOS`; `vscode` to `Global/Visual_Studio_Code`; `idea` and `jetbrains` to
/// `Global/JetBrains`; `windows` and `linux` to their global templates; `node`,
/// `python`, `rust`, `go`, `java` and `r` to the language of that name; `c++` and `cpp`
/// to `C++`, but `c` to `C`; `csharp` to `VisualStudio`. This holds of every query that
/// normalizes to the shorthand, whatever its case, spacing or separators.
pub proof fn law_documented_aliases(q: Seq<char>)
    ensures
        normalized(q) == "macos"@ ==> alias_target(normalized(q)) == Some("Global/macOS"@),
        normalized(q) == "mac"@ ==> alias_target(normalized(q)) == Some("Global/macOS"@),
        normalized(q) == "osx"@ ==> alias_target(normalized(q)) == Some("Global/macOS"@),
        normalized(q) == "vscode"@ ==> alias_target(normalized(q)) == Some("Global/Visual_Studio_Code"@),
        normalized(q) == "idea"@ ==> alias_target(normalized(q)) == Some("Global/JetBrains"@),
        normalized(q) == "jetbrains"@ ==> alias_target(normalized(q)) == Some("Global/JetBrains"@),
        normalized(q) == "windows"@ ==> alias_target(normalized(q)) == Some("Global/Windows"@),
        normalized(q) == "linux"@ ==> alias_target(normalized(q)) == Some("Global/Linux"@),
        normalized(q) == "node"@ ==> alias_target(normalized(q)) == Some("Node"@),
        normalized(q) == "python"@ ==> alias_target(normalized(q)) == Some("Python"@),
        normalized(q) == "rust"@ ==> alias_target(normalized(q)) == Some("Rust"@),
        normalized(q) == "go"@ ==> alias_target(normalized(q)) == Some("Go"@),
        normalized(q) == "java"@ ==> alias_target(normalized(q)) == Some("Java"@),
        normalized(q) == "c++"@ ==> alias_target(normalized(q)) == Some("C++"@),
        normalized(q) == "cpp"@ ==> alias_target(normalized(q)) == Some("C++"@),
        normalized(q) == "c"@ ==> alias_target(normalized(q)) == Some("C"@),
        normalized(q) == "csharp"@ ==> alias_target(normalized(q)) == Some("VisualStudio"@),
        normalized(q) == "r"@ ==> alias_target(normalized(q)) == Some("R"@),
{
    lemma_alias_0();
    lemma_alias_1();
    lemma_alias_2();
    lemma_alias_3();
    lemma_alias_4();
    lemma_alias_5();
    lemma_alias_6();
    lemma_alias_7();
    lemma_alias_8();
    lemma_alias_9();
    lemma_alias_10();
    lemma_alias_11();
    lemma_alias_12();
    lemma_alias_13();
    lemma_alias_14();
    lemma_alias_15();
    lemma_alias_16();
    lemma_alias_17();
}

} // verus!
