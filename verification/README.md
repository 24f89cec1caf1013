# dotrush

The DotRush extension for the Zed editor, with its decisions verified by Verus.

- `src/` is the verified library: locating the `dotnet` host (`dotnet`),
  environment assignments (`env`), GitHub release assets (`github`), the
  installer state machine that fetches, extracts and checks a component
  (`install`), the language server and the choice of debug adapter
  (`extension`), and the Mono and .NET Core debug adapters (`debugger`).
- `app/` is the extension itself: it implements the editor's extension
  trait, performs the installer's requests against the editor, the network
  and the file system, and turns debugger configurations into JSON and back.
- `tests/` runs the library on concrete values.
