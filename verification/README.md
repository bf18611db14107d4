# gi: interactive shell for git

`gi switch`, `gi add`, `gi commit`, `gi delete`, `gi fetch`, `gi merge` and `gi push`
ask what to do through interactive prompts and then do it on the repository.

## Layout

- `src/` is the library, verified with Verus. Each command is a state machine
  (`src/command/*.rs`) that asks for the next step to take (`flow::Action`) and takes the
  reply to it (`flow::Event`); its contract says, for every reply, which step comes next.
  The search for the repository, the branch and file listings, the texts printed and the
  `git` arguments are computed and proved there too.
- `app/` is the program around it: argument parsing (`clap`), the repository on disk
  (`git2`), the prompts (`inquire`), running `git`, and printing. It performs the steps
  that a command asks for and feeds the replies back.
- `tests/` runs the commands of the library against scripted replies.
